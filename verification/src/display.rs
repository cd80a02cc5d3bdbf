//! The render surface: the frame of the panel and the drawing primitives on it.
//!
//! The frame belongs to the panel driver crate and the primitives are drawn by
//! the graphics crate. What reaches into either is a private function marked
//! `external_body`, whose contract is taken on trust; everything above them is
//! verified against those contracts.

use crate::ops::all_fit;
use crate::ops::cell;
use crate::ops::fits;
use crate::ops::icon_cell;
use crate::ops::far;
use crate::ops::near;
use crate::ops::small;
use crate::ops::wide;
use crate::ops::DrawOp;
use crate::ops::Font;
use crate::ops::Icon;
use crate::ops::Op;
use crate::ops::FAR;
use crate::ops::MAX_GLYPHS;
use crate::ops::MAX_STROKE;
use crate::layout::arrow_ops;
use crate::layout::arrow_plan;
use crate::layout::arrow_simple_ops;
use crate::layout::arrow_simple_plan;
use crate::layout::battery_percentage_ops;
use crate::layout::battery_percentage_plan;
use crate::layout::clear_text_ops;
use crate::layout::clear_text_plan;
use crate::layout::connected_ops;
use crate::layout::connected_plan;
use crate::layout::connection_ops;
use crate::layout::connection_plan;
use crate::layout::default_battery_percentage_ops;
use crate::layout::default_battery_percentage_plan;
use crate::layout::default_display_ops;
use crate::layout::default_display_plan;
use crate::layout::default_total_ops;
use crate::layout::default_total_plan;
use crate::layout::default_weather_ops;
use crate::layout::default_weather_plan;
use crate::layout::error_message_ops;
use crate::layout::error_message_plan;
use crate::layout::arrow_within_reach;
use crate::layout::count_hours_shown;
use crate::layout::drawable;
use crate::layout::forecast_columns_ops;
use crate::layout::forecast_columns_plan;
use crate::layout::forecast_complete;
use crate::layout::forecast_drawable;
use crate::layout::hours_shown;
use crate::layout::return_arrow_ops;
use crate::layout::return_arrow_plan;
use crate::layout::row_within_reach;
use crate::layout::weather_separators_ops;
use crate::layout::forecast_plan;
use crate::layout::row_weather_ops;
use crate::layout::row_weather_plan;
use crate::layout::sun_data_ops;
use crate::layout::sun_data_plan;
use crate::layout::text_ops;
use crate::layout::text_plan;
use crate::layout::total_ops;
use crate::layout::total_plan;
use crate::layout::ArrowDirection;
use crate::layout::SimpleArrowDirection;
use crate::text::glyph_count;
use crate::types::HourlyNew;
use crate::types::Text;
use embedded_graphics::draw_target::DrawTarget;
use embedded_graphics::mono_font::ascii::FONT_4X6;
use embedded_graphics::mono_font::ascii::FONT_5X8;
use embedded_graphics::mono_font::ascii::FONT_6X10;
use embedded_graphics::mono_font::ascii::FONT_6X12;
use embedded_graphics::mono_font::ascii::FONT_9X15;
use embedded_graphics::mono_font::MonoTextStyleBuilder;
use embedded_graphics::pixelcolor::BinaryColor;
use embedded_graphics::prelude::Point;
use embedded_graphics::prelude::Primitive;
use embedded_graphics::prelude::Size;
use embedded_graphics::primitives::Circle;
use embedded_graphics::primitives::Line;
use embedded_graphics::primitives::PrimitiveStyleBuilder;
use embedded_graphics::primitives::Rectangle;
use embedded_graphics::text::Text as GlyphRun;
use embedded_graphics::Drawable;
use embedded_graphics::Pixel;
use epd_waveshare::color::Color;
use epd_waveshare::epd2in9_v2::Display2in9;
use epd_waveshare::graphics::Display;
use epd_waveshare::graphics::DisplayRotation;
use vstd::prelude::*;

pub use crate::layout::ConnectionDirection;

verus! {

/// Width of the panel in landscape, in pixels.
pub const PANEL_WIDTH: u32 = 296;

/// Height of the panel in landscape, in pixels.
pub const PANEL_HEIGHT: u32 = 128;

/// Bytes of a frame: one bit per pixel.
pub const FRAME_BYTES: usize = 4736;

/// The frame type of the 2.9" panel, `epd_waveshare::epd2in9_v2::Display2in9`.
/// Nothing is known of its inside but what `frame_bytes` names.
#[verifier::external_type_specification]
#[verifier::external_body]
pub struct ExDisplay2in9(Display2in9);

/// The bytes that a frame holds, in the order in which `Display::buffer` hands
/// them out.
pub uninterp spec fn frame_bytes(frame: Display2in9) -> Seq<u8>;

/// The frame after the graphics crate has drawn a black line from `(x0, y0)`
/// to `(x1, y1)` with the given stroke width.
pub uninterp spec fn lined(frame: Seq<u8>, x0: int, y0: int, x1: int, y1: int, stroke: int) -> Seq<
    u8,
>;

/// The frame after the graphics crate has drawn a black circle outline whose
/// box has its top left corner at `(x, y)`.
pub uninterp spec fn circled(frame: Seq<u8>, x: int, y: int, diameter: int, stroke: int) -> Seq<u8>;

/// The frame after the graphics crate has drawn black text in a font, starting
/// at `x` on the baseline `y`.
pub uninterp spec fn labelled(frame: Seq<u8>, text: Text, x: int, y: int, font: Font) -> Seq<u8>;

/// A frame of one background byte after the other.
pub open spec fn blank(len: nat) -> Seq<u8> {
    Seq::new(len, |i: int| 0xffu8)
}

/// The frame after one pixel was set. The panel is mounted a quarter turn from
/// the frame's own orientation: a column of the landscape picture is a row of 16
/// bytes, the bottom pixel of the column first. A cleared bit is black. A pixel
/// outside the panel changes nothing.
pub open spec fn dotted(frame: Seq<u8>, x: int, y: int, black: bool) -> Seq<u8> {
    let at = 16 * x + (127 - y) / 8;
    if 0 <= x < PANEL_WIDTH && 0 <= y < PANEL_HEIGHT && at < frame.len() {
        let bit = 0x80u8 >> (((127 - y) % 8) as u8);
        frame.update(
            at,
            if black {
                frame[at] & !bit
            } else {
                frame[at] | bit
            },
        )
    } else {
        frame
    }
}

/// The frame after the first `cells` pixels of a rectangle, row by row, were set
/// to the background.
pub open spec fn erased_cells(frame: Seq<u8>, x: int, y: int, width: int, cells: nat) -> Seq<u8>
    decreases cells,
{
    if cells == 0 || width <= 0 {
        frame
    } else {
        let k = cells - 1;
        dotted(erased_cells(frame, x, y, width, k as nat), x + k % width, y + k / width, false)
    }
}

/// The frame after a rectangle was filled with the background.
pub open spec fn erased(frame: Seq<u8>, x: int, y: int, width: int, height: int) -> Seq<u8> {
    if width <= 0 || height <= 0 {
        frame
    } else {
        erased_cells(frame, x, y, width, (width * height) as nat)
    }
}

/// The frame after it was cleared through the draw target. The target reports
/// the size of the frame in its own orientation, 128 by 296, so in landscape
/// only the pixels with `x` below 128 are cleared.
pub open spec fn wiped(frame: Seq<u8>) -> Seq<u8> {
    erased(frame, 0, 0, 128, 296)
}

/// The frame after the first `cells` cells of an icon, row by row, were drawn.
pub open spec fn stamped_cells(frame: Seq<u8>, icon: Icon, x: int, y: int, cells: nat) -> Seq<u8>
    decreases cells,
{
    if cells == 0 {
        frame
    } else {
        let k = cells - 1;
        dotted(
            stamped_cells(frame, icon, x, y, k as nat),
            x + k % 18,
            y + k / 18,
            icon_cell(icon, k % 18, k / 18),
        )
    }
}

/// The frame after an icon was drawn, every cell of it black or background.
pub open spec fn stamped(frame: Seq<u8>, icon: Icon, x: int, y: int) -> Seq<u8> {
    stamped_cells(frame, icon, x, y, 270)
}

/// The frame after one operation.
pub open spec fn painted_one(frame: Seq<u8>, op: Op) -> Seq<u8> {
    match op {
        Op::Blank => blank(frame.len()),
        Op::Wipe => wiped(frame),
        Op::Erase { x, y, width, height } => erased(
            frame,
            x as int,
            y as int,
            width as int,
            height as int,
        ),
        Op::Line { x0, y0, x1, y1, stroke } => lined(
            frame,
            x0 as int,
            y0 as int,
            x1 as int,
            y1 as int,
            stroke as int,
        ),
        Op::Circle { x, y, diameter, stroke } => circled(
            frame,
            x as int,
            y as int,
            diameter as int,
            stroke as int,
        ),
        Op::Label { text, x, y, font } => labelled(frame, text, x as int, y as int, font),
        Op::Stamp { icon, x, y } => stamped(frame, icon, x as int, y as int),
        Op::Dot { x, y, black } => dotted(frame, x as int, y as int, black),
    }
}

/// The frame after the operations of a plan, in their order.
pub open spec fn painted(frame: Seq<u8>, plan: Seq<Op>) -> Seq<u8>
    decreases plan.len(),
{
    if plan.len() == 0 {
        frame
    } else {
        painted_one(painted(frame, plan.drop_last()), plan.last())
    }
}

/// Painting one plan after another is painting both in a row.
pub proof fn painted_in_sequence(frame: Seq<u8>, first: Seq<Op>, second: Seq<Op>)
    ensures
        painted(frame, first + second) == painted(painted(frame, first), second),
    decreases second.len(),
{
    if second.len() == 0 {
        assert(first + second =~= first);
    } else {
        painted_in_sequence(frame, first, second.drop_last());
        assert((first + second).drop_last() =~= first + second.drop_last());
        assert((first + second).last() == second.last());
    }
}

/// Why a drawing request was refused.
#[derive(Debug, Clone, Copy, PartialEq, Eq, Structural)]
pub enum DisplayError {
    /// A percentage of no glyph, or of more than three.
    SequenceTooLong,
    /// A text that does not fit its zone.
    InputTooLong,
    /// The forecast holds fewer hours than the panel shows.
    MissingData,
    /// The forecast holds no sunrise or no sunset for today.
    ValueNotPresent,
    /// An operation that the graphics crate cannot draw in its 32 bits: its
    /// coordinates, extents, stroke or text are out of reach.
    OutOfReach,
}

/// What a request leaves behind whose rule on its input is all that can keep
/// it from drawing: where the input breaks the rule, the frame as it was and
/// the rule's error; else the frame with the plan painted on it.
pub open spec fn painted_unless(
    refused: bool,
    error: DisplayError,
    before: Seq<u8>,
    after: Seq<u8>,
    done: Result<(), DisplayError>,
    plan: Seq<Op>,
) -> bool {
    if refused {
        done == Err::<(), DisplayError>(error) && after == before
    } else {
        done is Ok && after == painted(before, plan)
    }
}

/// The frame of the panel, kept on the heap.
pub struct DisplayBoxed {
    frame: Box<Display2in9>,
}

impl View for DisplayBoxed {
    type V = Seq<u8>;

    closed spec fn view(&self) -> Seq<u8> {
        frame_bytes(*self.frame)
    }
}

/// `Display2in9::default`, then `Display::set_rotation` to a quarter turn: a
/// frame of `FRAME_BYTES` background bytes, which every later call draws on in
/// landscape.
#[verifier::external_body]
fn fresh_frame() -> (display: DisplayBoxed)
    ensures
        frame_bytes(*display.frame) == blank(4736),
{
    let mut frame = Box::new(Display2in9::default());
    frame.set_rotation(DisplayRotation::Rotate90);
    DisplayBoxed { frame }
}

/// `Display::buffer`: the bytes of the frame, always `FRAME_BYTES` of them.
#[verifier::external_body]
fn frame_slice(display: &DisplayBoxed) -> (bytes: &[u8])
    ensures
        bytes@ == frame_bytes(*display.frame),
        bytes@.len() == 4736,
{
    display.frame.buffer()
}

/// `Display::clear_buffer` with white: every byte of the frame becomes the
/// background byte.
#[verifier::external_body]
fn blank_frame(display: &mut DisplayBoxed)
    ensures
        frame_bytes(*final(display).frame) == blank(frame_bytes(*old(display).frame).len()),
{
    display.frame.clear_buffer(Color::White);
}

/// `DrawTarget::clear` with the background colour, which fills the target's
/// bounding box pixel by pixel.
#[verifier::external_body]
fn wipe_frame(display: &mut DisplayBoxed)
    ensures
        frame_bytes(*final(display).frame) == wiped(frame_bytes(*old(display).frame)),
{
    let _ = display.frame.clear(BinaryColor::Off);
}

/// `DrawTarget::fill_solid` with the background colour, which sets the pixels
/// of the rectangle one by one, row by row.
#[verifier::external_body]
fn erase_rect(display: &mut DisplayBoxed, x: i32, y: i32, width: u32, height: u32)
    requires
        far(x),
        far(y),
        wide(width),
        wide(height),
    ensures
        frame_bytes(*final(display).frame) == erased(
            frame_bytes(*old(display).frame),
            x as int,
            y as int,
            width as int,
            height as int,
        ),
{
    let area = Rectangle::new(Point::new(x, y), Size::new(width, height));
    let _ = display.frame.fill_solid(&area, BinaryColor::Off);
}

/// `Line::new(..).into_styled(..).draw(..)` with a black stroke.
#[verifier::external_body]
fn stroke_line(display: &mut DisplayBoxed, x0: i32, y0: i32, x1: i32, y1: i32, stroke: u32)
    requires
        near(x0),
        near(y0),
        near(x1),
        near(y1),
        stroke <= MAX_STROKE,
    ensures
        frame_bytes(*final(display).frame) == lined(
            frame_bytes(*old(display).frame),
            x0 as int,
            y0 as int,
            x1 as int,
            y1 as int,
            stroke as int,
        ),
{
    let style = PrimitiveStyleBuilder::new().stroke_color(BinaryColor::On).stroke_width(
        stroke,
    ).build();
    let line = Line::new(Point::new(x0, y0), Point::new(x1, y1));
    let _ = line.into_styled(style).draw(display.frame.as_mut());
}

/// `Circle::new(..).into_styled(..).draw(..)` with a black stroke.
#[verifier::external_body]
fn stroke_circle(display: &mut DisplayBoxed, x: i32, y: i32, diameter: u32, stroke: u32)
    requires
        near(x),
        near(y),
        small(diameter),
        stroke <= MAX_STROKE,
    ensures
        frame_bytes(*final(display).frame) == circled(
            frame_bytes(*old(display).frame),
            x as int,
            y as int,
            diameter as int,
            stroke as int,
        ),
{
    let style = PrimitiveStyleBuilder::new().stroke_color(BinaryColor::On).stroke_width(
        stroke,
    ).build();
    let _ = Circle::new(Point::new(x, y), diameter).into_styled(style).draw(display.frame.as_mut());
}

/// `Text::new(..).draw(..)` in black, in one of the graphics crate's ASCII
/// fonts.
#[verifier::external_body]
fn write_label(display: &mut DisplayBoxed, text: &str, x: i32, y: i32, font: Font)
    requires
        far(x),
        far(y),
        text@.len() <= MAX_GLYPHS,
    ensures
        frame_bytes(*final(display).frame) == labelled(
            frame_bytes(*old(display).frame),
            text@,
            x as int,
            y as int,
            font,
        ),
{
    let face = match font {
        Font::Font4x6 => &FONT_4X6,
        Font::Font5x8 => &FONT_5X8,
        Font::Font6x10 => &FONT_6X10,
        Font::Font6x12 => &FONT_6X12,
        Font::Font9x15 => &FONT_9X15,
    };
    let style = MonoTextStyleBuilder::new().font(face).text_color(BinaryColor::On).build();
    let _ = GlyphRun::new(text, Point::new(x, y), style).draw(display.frame.as_mut());
}

/// `Pixel(..).draw(..)`: one pixel, black or background.
#[verifier::external_body]
fn set_dot(display: &mut DisplayBoxed, x: i32, y: i32, black: bool)
    requires
        far(x),
        far(y),
    ensures
        frame_bytes(*final(display).frame) == dotted(
            frame_bytes(*old(display).frame),
            x as int,
            y as int,
            black,
        ),
{
    let color = if black {
        BinaryColor::On
    } else {
        BinaryColor::Off
    };
    let _ = Pixel(Point::new(x, y), color).draw(display.frame.as_mut());
}

impl DisplayBoxed {
    /// A frame with every pixel at the background.
    pub fn new() -> (display: DisplayBoxed)
        ensures
            display@ == blank(FRAME_BYTES as nat),
    {
        fresh_frame()
    }

    /// The bytes of the frame, as the panel driver takes them.
    pub fn buffer(&self) -> (bytes: &[u8])
        ensures
            bytes@ == self@,
            bytes@.len() == FRAME_BYTES,
    {
        frame_slice(self)
    }

    /// Sets every pixel of the frame to the background.
    pub fn clear_buffer(&mut self)
        ensures
            final(self)@ == blank(old(self)@.len()),
    {
        blank_frame(self);
    }

    /// Clears the frame through the draw target.
    pub fn clear(&mut self)
        ensures
            final(self)@ == wiped(old(self)@),
    {
        wipe_frame(self);
    }

    /// Fills a rectangle with the background.
    pub fn fill_solid(&mut self, x: i32, y: i32, width: u32, height: u32) -> (done: Result<
        (),
        DisplayError,
    >)
        ensures
            fits(Op::Erase { x, y, width, height }) ==> done is Ok && final(self)@ == erased(
                old(self)@,
                x as int,
                y as int,
                width as int,
                height as int,
            ),
            !fits(Op::Erase { x, y, width, height }) ==> done == Err::<(), DisplayError>(
                DisplayError::OutOfReach,
            ) && final(self)@ == old(self)@,
    {
        let op = DrawOp::Erase { x, y, width, height };
        self.apply(&op)
    }

    fn stamp(&mut self, icon: Icon, x: i32, y: i32)
        requires
            far(x),
            far(y),
        ensures
            final(self)@ == stamped(old(self)@, icon, x as int, y as int),
    {
        let mut k: u32 = 0;
        while k < 270
            invariant
                k <= 270,
                far(x),
                far(y),
                self@ == stamped_cells(old(self)@, icon, x as int, y as int, k as nat),
            decreases 270 - k,
        {
            let col: u32 = k % 18;
            let row: u32 = k / 18;
            let black = cell(icon, col, row as usize);
            // the corner is within reach and so stays far from the ends of i32
            let px: i32 = x + col as i32;
            let py: i32 = y + row as i32;
            if px <= FAR && py <= FAR {
                set_dot(self, px, py, black);
            } else {
                proof {
                    // beyond reach is beyond the panel: the pixel changes nothing
                    assert(dotted(self@, px as int, py as int, black) == self@);
                }
            }
            k = k + 1;
        }
    }

    fn paint_one(&mut self, op: &DrawOp)
        requires
            fits(op@),
        ensures
            final(self)@ == painted_one(old(self)@, op@),
    {
        match op {
            DrawOp::Blank => blank_frame(self),
            DrawOp::Wipe => wipe_frame(self),
            DrawOp::Erase { x, y, width, height } => erase_rect(self, *x, *y, *width, *height),
            DrawOp::Line { x0, y0, x1, y1, stroke } => stroke_line(
                self,
                *x0,
                *y0,
                *x1,
                *y1,
                *stroke,
            ),
            DrawOp::Circle { x, y, diameter, stroke } => stroke_circle(
                self,
                *x,
                *y,
                *diameter,
                *stroke,
            ),
            DrawOp::Label { text, x, y, font } => write_label(self, text.as_str(), *x, *y, *font),
            DrawOp::Stamp { icon, x, y } => self.stamp(*icon, *x, *y),
            DrawOp::Dot { x, y, black } => set_dot(self, *x, *y, *black),
        }
    }

    /// Draws a plan whose operations all fit.
    pub(crate) fn paint(&mut self, plan: &Vec<DrawOp>)
        requires
            all_fit(plan.deep_view()),
        ensures
            final(self)@ == painted(old(self)@, plan.deep_view()),
    {
        let ghost ops = plan.deep_view();
        let mut i: usize = 0;
        while i < plan.len()
            invariant
                i <= plan.len(),
                ops == plan.deep_view(),
                all_fit(ops),
                self@ == painted(old(self)@, ops.take(i as int)),
            decreases plan.len() - i,
        {
            assert(ops.take(i as int + 1).drop_last() =~= ops.take(i as int));
            assert(ops[i as int] == plan[i as int]@);
            self.paint_one(&plan[i]);
            i = i + 1;
        }
        assert(ops.take(i as int) =~= ops);
    }

    /// Draws one operation, or refuses it if it does not fit.
    pub fn apply(&mut self, op: &DrawOp) -> (done: Result<(), DisplayError>)
        ensures
            fits(op@) ==> done is Ok && final(self)@ == painted_one(old(self)@, op@),
            !fits(op@) ==> final(self)@ == old(self)@ && done == Err::<(), DisplayError>(
                DisplayError::OutOfReach,
            ),
    {
        if op.fits() {
            self.paint_one(op);
            Ok(())
        } else {
            Err(DisplayError::OutOfReach)
        }
    }

    /// Draws the operations of a plan in their order, or none of them if one
    /// does not fit.
    pub fn apply_all(&mut self, plan: &Vec<DrawOp>) -> (done: Result<(), DisplayError>)
        ensures
            all_fit(plan.deep_view()) ==> done is Ok && final(self)@ == painted(
                old(self)@,
                plan.deep_view(),
            ),
            !all_fit(plan.deep_view()) ==> done == Err::<(), DisplayError>(
                DisplayError::OutOfReach,
            ) && final(self)@ == old(self)@,
    {
        let ghost ops = plan.deep_view();
        let mut i: usize = 0;
        while i < plan.len()
            invariant
                i <= plan.len(),
                ops == plan.deep_view(),
                forall|j: int| 0 <= j < i ==> fits(#[trigger] ops[j]),
            decreases plan.len() - i,
        {
            assert(ops[i as int] == plan[i as int]@);
            if !plan[i].fits() {
                return Err(DisplayError::OutOfReach);
            }
            i = i + 1;
        }
        self.paint(plan);
        Ok(())
    }
}

impl DisplayBoxed {
    /// Draws the whole picture with nothing known yet; the readings are set in
    /// `font`.
    pub fn draw_default_display(&mut self, font: Font) -> (done: Result<(), DisplayError>)
        ensures
            done is Ok,
            final(self)@ == painted(old(self)@, default_display_plan(font)),
    {
        self.paint(&default_display_ops(font));
        Ok(())
    }

    /// Draws the five readings, each at the offset that its number of glyphs
    /// asks for.
    pub fn draw_text(
        &mut self,
        font: Font,
        circle_top: &str,
        circle_bottom: &str,
        circle_left: &str,
        circle_right: &str,
        update: &str,
    ) -> (done: Result<(), DisplayError>)
        requires
            drawable(circle_top@),
            drawable(circle_bottom@),
            drawable(circle_left@),
            drawable(circle_right@),
            drawable(update@),
        ensures
            done is Ok,
            final(self)@ == painted(
                old(self)@,
                text_plan(font, circle_top@, circle_bottom@, circle_left@, circle_right@, update@),
            ),
    {
        self.paint(&text_ops(font, circle_top, circle_bottom, circle_left, circle_right, update));
        Ok(())
    }

    /// Erases the five readings and the hub between the circles.
    pub fn clear_text(&mut self) -> (done: Result<(), DisplayError>)
        ensures
            done is Ok,
            final(self)@ == painted(old(self)@, clear_text_plan()),
    {
        self.paint(&clear_text_ops());
        Ok(())
    }

    /// Writes a message into the lower half of the panel.
    pub fn display_error_message(&mut self, message: &str, font: Font) -> (done: Result<
        (),
        DisplayError,
    >)
        requires
            drawable(message@),
        ensures
            done is Ok,
            final(self)@ == painted(old(self)@, error_message_plan(message@, font)),
    {
        self.paint(&error_message_ops(message, font));
        Ok(())
    }

    /// Draws the line from the hub to a circle, and its arrowhead if it has one.
    pub fn draw_connections(&mut self, connection: ConnectionDirection) -> (done: Result<
        (),
        DisplayError,
    >)
        ensures
            done is Ok,
            final(self)@ == painted(old(self)@, connection_plan(connection)),
    {
        self.paint(&connection_ops(connection));
        Ok(())
    }

    /// Draws the arrowhead of a connection that points back to the hub.
    pub fn draw_return_arrow(&mut self, connection: ConnectionDirection) -> (done: Result<
        (),
        DisplayError,
    >)
        ensures
            done is Ok,
            final(self)@ == painted(old(self)@, return_arrow_plan(connection)),
    {
        self.paint(&return_arrow_ops(connection));
        Ok(())
    }

    /// Draws the tab that says the feed is connected.
    pub fn set_connected(&mut self) -> (done: Result<(), DisplayError>)
        ensures
            done is Ok,
            final(self)@ == painted(old(self)@, connected_plan()),
    {
        self.paint(&connected_ops());
        Ok(())
    }

    /// Draws an arrowhead at one of the circles.
    pub fn draw_arrow(&mut self, direction: ArrowDirection) -> (done: Result<(), DisplayError>)
        ensures
            done is Ok,
            final(self)@ == painted(old(self)@, arrow_plan(direction)),
    {
        self.paint(&arrow_ops(direction));
        Ok(())
    }

    /// Shows the charge of the battery, a percentage of one to three glyphs. The
    /// place of the percentage is erased before the percentage is looked at, so
    /// one that is refused leaves it empty.
    pub fn update_battery_percentage(&mut self, percentage: &str) -> (done: Result<
        (),
        DisplayError,
    >)
        ensures
            percentage@.len() > 3 || percentage@.len() < 1 ==> done == Err::<(), DisplayError>(
                DisplayError::SequenceTooLong,
            ) && final(self)@ == erased(old(self)@, 1, 1, 28, 12),
            1 <= percentage@.len() <= 3 ==> done is Ok && final(self)@ == painted(
                old(self)@,
                battery_percentage_plan(percentage@),
            ),
    {
        let glyphs = glyph_count(percentage);
        if glyphs > 3 || glyphs < 1 {
            erase_rect(self, 1, 1, 28, 12);
            return Err(DisplayError::SequenceTooLong);
        }
        self.paint(&battery_percentage_ops(percentage));
        Ok(())
    }

    /// Draws the frame of the battery percentage, with a full battery in it.
    pub fn draw_default_battery_percentage(&mut self) -> (done: Result<(), DisplayError>)
        ensures
            done is Ok,
            final(self)@ == painted(old(self)@, default_battery_percentage_plan()),
    {
        self.paint(&default_battery_percentage_ops());
        Ok(())
    }

    /// Shows the times of sunrise and sunset, each of at most five glyphs.
    pub fn update_sun_data(&mut self, sunrise: &str, sunset: &str) -> (done: Result<
        (),
        DisplayError,
    >)
        ensures
            painted_unless(
                sunset@.len() > 5 || sunrise@.len() > 5,
                DisplayError::InputTooLong,
                old(self)@,
                final(self)@,
                done,
                sun_data_plan(sunrise@, sunset@),
            ),
    {
        if glyph_count(sunset) > 5 || glyph_count(sunrise) > 5 {
            return Err(DisplayError::InputTooLong);
        }
        self.apply_all(&sun_data_ops(sunrise, sunset))
    }

    /// Draws the forecast with nothing known yet.
    pub fn draw_default_weather(&mut self) -> (done: Result<(), DisplayError>)
        ensures
            done is Ok,
            final(self)@ == painted(old(self)@, default_weather_plan()),
    {
        self.paint(&default_weather_ops());
        Ok(())
    }

    /// Draws one column of the forecast table, `x_offset` pixels right of the
    /// table's left edge.
    pub fn draw_row_weather_data(
        &mut self,
        rain: &str,
        cloud: &str,
        uv: &str,
        temp: &str,
        x_offset: i32,
    ) -> (done: Result<(), DisplayError>)
        requires
            row_within_reach(x_offset),
            drawable(rain@),
            drawable(cloud@),
            drawable(uv@),
            drawable(temp@),
        ensures
            done is Ok,
            final(self)@ == painted(
                old(self)@,
                row_weather_plan(rain@, cloud@, uv@, temp@, x_offset),
            ),
    {
        self.paint(&row_weather_ops(rain, cloud, uv, temp, x_offset));
        Ok(())
    }

    /// Shows the first four hours of a forecast. The table is erased and filled
    /// column by column; a forecast that lacks an hour is refused at the first
    /// column that it cannot fill, with the columns before it drawn.
    pub fn update_weather_data(&mut self, weather_data: HourlyNew) -> (done: Result<
        (),
        DisplayError,
    >)
        requires
            forecast_drawable(weather_data@, hours_shown(weather_data@)),
        ensures
            forecast_complete(weather_data@) ==> done is Ok && final(self)@ == painted(
                old(self)@,
                forecast_plan(weather_data@),
            ),
            !forecast_complete(weather_data@) ==> done == Err::<(), DisplayError>(
                DisplayError::MissingData,
            ) && final(self)@ == painted(
                old(self)@,
                forecast_columns_plan(weather_data@, hours_shown(weather_data@)),
            ),
    {
        let columns = forecast_columns_ops(&weather_data);
        self.paint(&columns);
        if count_hours_shown(&weather_data) < 4 {
            return Err(DisplayError::MissingData);
        }
        let separators = weather_separators_ops();
        self.paint(&separators);
        proof {
            painted_in_sequence(old(self)@, columns.deep_view(), separators.deep_view());
        }
        Ok(())
    }

    /// Draws an arrow beside a sun, with its tip or its tail at `startpos`.
    pub fn draw_arrow_simple(
        &mut self,
        direction: SimpleArrowDirection,
        startpos: (i32, i32),
    ) -> (done: Result<(), DisplayError>)
        requires
            arrow_within_reach(startpos.0, startpos.1),
        ensures
            done is Ok,
            final(self)@ == painted(
                old(self)@,
                arrow_simple_plan(direction, startpos.0, startpos.1),
            ),
    {
        self.paint(&arrow_simple_ops(direction, startpos.0, startpos.1));
        Ok(())
    }

    /// Draws the totals with nothing known yet.
    pub fn draw_default_total(&mut self) -> (done: Result<(), DisplayError>)
        ensures
            done is Ok,
            final(self)@ == painted(old(self)@, default_total_plan()),
    {
        self.paint(&default_total_ops());
        Ok(())
    }

    /// Shows the totals of the period, each of at most five glyphs.
    pub fn update_total_display(&mut self, consumption: &str, generated: &str) -> (done: Result<
        (),
        DisplayError,
    >)
        ensures
            painted_unless(
                consumption@.len() > 5 || generated@.len() > 5,
                DisplayError::InputTooLong,
                old(self)@,
                final(self)@,
                done,
                total_plan(consumption@, generated@),
            ),
    {
        if glyph_count(consumption) > 5 || glyph_count(generated) > 5 {
            return Err(DisplayError::InputTooLong);
        }
        self.apply_all(&total_ops(consumption, generated))
    }
}

} // verus!
