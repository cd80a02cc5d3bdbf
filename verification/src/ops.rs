//! The drawing operations a render is planned in, and the static artwork.
//!
//! A render is a list of operations on the panel's frame; nothing in this file
//! touches a frame. Coordinates are those of the panel in landscape: x runs
//! from 0 to 295, y from 0 to 127.

use crate::types::Text;
use vstd::prelude::*;
use vstd::string::StrSliceExecFns;

verus! {

/// Columns of an icon.
pub const ICON_WIDTH: u32 = 18;

/// Rows of an icon.
pub const ICON_HEIGHT: u32 = 15;

/// How far from the origin a line or a circle may lie, and how large a circle
/// may be. The graphics crate squares the length of a thick line and the
/// diameter of a circle in 32 bits, with factors of the stroke.
pub const REACH: i32 = 1024;

/// How far from the origin a text, an icon, a pixel or the corner of an erased
/// rectangle may lie, and how large the rectangle may be. The graphics crate
/// adds to these coordinates in 32 bits: from here there is room for the
/// longest text and the largest rectangle.
pub const FAR: i32 = 0x4000_0000;

/// The widest stroke an operation may ask for.
pub const MAX_STROKE: u32 = 4;

/// The longest text an operation may carry, in glyphs. A text advances by at
/// most 9 pixels a glyph and 15 pixels a line, so one as long as this that
/// starts within `FAR` ends below two to the 31.
pub const MAX_GLYPHS: usize = 0x400_0000;

// Each icon is 15 rows of 18 cells, the leftmost cell in bit 17.
/// A house: the load of the household.
pub const HOUSE: [u32; 15] = [
    0b000000001100000000,
    0b000000110011000000,
    0b000001000000100000,
    0b000010000000010000,
    0b001111111111111100,
    0b000010000000010000,
    0b000010000000010000,
    0b000010000000010000,
    0b000010000000010000,
    0b000010000000010000,
    0b000010000000010000,
    0b000010000000010000,
    0b000011111111110000,
    0b000000000000000000,
    0b000000000000000000,
];

/// A thermometer: the temperature row of the forecast.
pub const THERMOMETER: [u32; 15] = [
    0b000000000000000000,
    0b000000000000000000,
    0b000000001100000000,
    0b000000010010000000,
    0b000000010010000000,
    0b000000010010000000,
    0b000000010010000000,
    0b000000010010000000,
    0b000000010010000000,
    0b000000110011000000,
    0b000001000000100000,
    0b000001000000100000,
    0b000001011110100000,
    0b000000100001000000,
    0b000000011110000000,
];

/// A cloud: the cloud-cover row of the forecast.
pub const CLOUD: [u32; 15] = [
    0b000000000000000000,
    0b000000000000000000,
    0b000000000000000000,
    0b000000000111000000,
    0b000000001111100000,
    0b000001111111110000,
    0b000011111111110000,
    0b000111111111111000,
    0b001111111111111100,
    0b001111111111111100,
    0b000011111111110000,
    0b000000000000000000,
    0b000000000000000000,
    0b000000000000000000,
    0b000000000000000000,
];

/// A raining cloud: the rain row of the forecast.
pub const RAINDROPS: [u32; 15] = [
    0b000000000000000000,
    0b000000000000000000,
    0b000000000010000000,
    0b000000011111110000,
    0b000000011111110000,
    0b000111111111111000,
    0b001111111111111000,
    0b001111111111111100,
    0b000111111111111100,
    0b000011111111110000,
    0b000001011011010000,
    0b000001101101100000,
    0b000000110110100000,
    0b000000000010000000,
    0b000000000000000000,
];

/// A lightning bolt: the grid.
pub const LIGHTNING_BOLT: [u32; 15] = [
    0b000000010100000000,
    0b000000010100000000,
    0b000000111110000000,
    0b000000111110000000,
    0b000000011100000000,
    0b000000011000000000,
    0b000000110000000000,
    0b000001100000000000,
    0b000011000000000000,
    0b000011000000000000,
    0b000001100000000000,
    0b000000110000000000,
    0b000000011000000000,
    0b000000001000000000,
    0b000000000000000000,
];

/// A battery.
pub const BATTERY: [u32; 15] = [
    0b000000011110000000,
    0b000001111111100000,
    0b000001000000100000,
    0b000001000000100000,
    0b000001000000100000,
    0b000001000000100000,
    0b000001000000100000,
    0b000001000000100000,
    0b000001000000100000,
    0b000001000000100000,
    0b000001000000100000,
    0b000001000000100000,
    0b000001111111100000,
    0b000000000000000000,
    0b000000000000000000,
];

/// A sun: the inverter, and the sun times.
pub const SUN: [u32; 15] = [
    0b000000100001000000,
    0b000000011110000000,
    0b001001110011100100,
    0b000111000000111000,
    0b000010000000010000,
    0b010110000000011010,
    0b001100000000001100,
    0b001100000000001100,
    0b010110000000011010,
    0b000010000000010000,
    0b000111000000111000,
    0b001001110011100100,
    0b000000011110000000,
    0b000000100001000000,
    0b000000000000000000,
];

/// The monospaced fonts the layout uses, by glyph size.
#[derive(Debug, Clone, Copy, PartialEq, Eq, Structural)]
pub enum Font {
    Font4x6,
    Font5x8,
    Font6x10,
    Font6x12,
    Font9x15,
}

/// The icons of the layout.
#[derive(Debug, Clone, Copy, PartialEq, Eq, Structural)]
pub enum Icon {
    House,
    Thermometer,
    Cloud,
    Raindrops,
    LightningBolt,
    Battery,
    Sun,
}

/// One drawing operation, as a render plan holds it.
#[derive(Debug, Clone, PartialEq, Eq)]
pub enum DrawOp {
    /// Set every pixel of the frame to the background.
    Blank,
    /// Clear the frame through the draw target, which reaches the left 128
    /// columns of the panel.
    Wipe,
    /// Fill a rectangle with the background.
    Erase { x: i32, y: i32, width: u32, height: u32 },
    /// A black line between two points.
    Line { x0: i32, y0: i32, x1: i32, y1: i32, stroke: u32 },
    /// A black circle outline; `x` and `y` are the top left corner of its box.
    Circle { x: i32, y: i32, diameter: u32, stroke: u32 },
    /// Black text; `y` is the baseline.
    Label { text: String, x: i32, y: i32, font: Font },
    /// An icon; `x` and `y` are its top left corner.
    Stamp { icon: Icon, x: i32, y: i32 },
    /// A single pixel.
    Dot { x: i32, y: i32, black: bool },
}

/// A drawing operation as the contracts see it.
pub enum Op {
    Blank,
    Wipe,
    Erase { x: i32, y: i32, width: u32, height: u32 },
    Line { x0: i32, y0: i32, x1: i32, y1: i32, stroke: u32 },
    Circle { x: i32, y: i32, diameter: u32, stroke: u32 },
    Label { text: Text, x: i32, y: i32, font: Font },
    Stamp { icon: Icon, x: i32, y: i32 },
    Dot { x: i32, y: i32, black: bool },
}

impl View for DrawOp {
    type V = Op;

    open spec fn view(&self) -> Op {
        match *self {
            DrawOp::Blank => Op::Blank,
            DrawOp::Wipe => Op::Wipe,
            DrawOp::Erase { x, y, width, height } => Op::Erase { x, y, width, height },
            DrawOp::Line { x0, y0, x1, y1, stroke } => Op::Line { x0, y0, x1, y1, stroke },
            DrawOp::Circle { x, y, diameter, stroke } => Op::Circle { x, y, diameter, stroke },
            DrawOp::Label { text, x, y, font } => Op::Label { text: text@, x, y, font },
            DrawOp::Stamp { icon, x, y } => Op::Stamp { icon, x, y },
            DrawOp::Dot { x, y, black } => Op::Dot { x, y, black },
        }
    }
}

impl DeepView for DrawOp {
    type V = Op;

    open spec fn deep_view(&self) -> Op {
        self@
    }
}

/// The rows of an icon, top row first.
pub open spec fn icon_rows(icon: Icon) -> Seq<u32> {
    match icon {
        Icon::House => HOUSE@,
        Icon::Thermometer => THERMOMETER@,
        Icon::Cloud => CLOUD@,
        Icon::Raindrops => RAINDROPS@,
        Icon::LightningBolt => LIGHTNING_BOLT@,
        Icon::Battery => BATTERY@,
        Icon::Sun => SUN@,
    }
}

/// Whether the cell of an icon at a column and a row is black.
pub open spec fn icon_cell(icon: Icon, col: int, row: int) -> bool
    recommends
        0 <= col < ICON_WIDTH,
        0 <= row < ICON_HEIGHT,
{
    (icon_rows(icon)[row] >> ((17 - col) as u32)) & 1 == 1
}

/// Reads one cell of an icon.
pub fn cell(icon: Icon, col: u32, row: usize) -> (black: bool)
    requires
        col < ICON_WIDTH,
        row < ICON_HEIGHT,
    ensures
        black == icon_cell(icon, col as int, row as int),
{
    let bits: u32 = match icon {
        Icon::House => HOUSE[row],
        Icon::Thermometer => THERMOMETER[row],
        Icon::Cloud => CLOUD[row],
        Icon::Raindrops => RAINDROPS[row],
        Icon::LightningBolt => LIGHTNING_BOLT[row],
        Icon::Battery => BATTERY[row],
        Icon::Sun => SUN[row],
    };
    (bits >> (17 - col)) & 1 == 1
}

/// Whether a coordinate of a line or a circle is within reach.
pub open spec fn near(c: i32) -> bool {
    -REACH <= c <= REACH
}

/// Whether a coordinate of a text, an icon, a pixel or a rectangle is within
/// reach.
pub open spec fn far(c: i32) -> bool {
    -FAR <= c <= FAR
}

/// Whether the diameter of a circle is within reach.
pub open spec fn small(e: u32) -> bool {
    e <= REACH
}

/// Whether an extent of a rectangle is within reach.
pub open spec fn wide(e: u32) -> bool {
    e < FAR
}

/// Whether an operation can be drawn without leaving the 32 bits in which the
/// graphics crate computes.
pub open spec fn fits(op: Op) -> bool {
    match op {
        Op::Blank => true,
        Op::Wipe => true,
        Op::Erase { x, y, width, height } => far(x) && far(y) && wide(width) && wide(height),
        Op::Line { x0, y0, x1, y1, stroke } => near(x0) && near(y0) && near(x1) && near(y1)
            && stroke <= MAX_STROKE,
        Op::Circle { x, y, diameter, stroke } => near(x) && near(y) && small(diameter) && stroke
            <= MAX_STROKE,
        Op::Label { text, x, y, font } => far(x) && far(y) && text.len() <= MAX_GLYPHS,
        Op::Stamp { icon, x, y } => far(x) && far(y),
        Op::Dot { x, y, black } => far(x) && far(y),
    }
}

/// Whether every operation of a plan can be drawn.
pub open spec fn all_fit(plan: Seq<Op>) -> bool {
    forall|i: int| 0 <= i < plan.len() ==> fits(#[trigger] plan[i])
}

fn is_near(c: i32) -> (r: bool)
    ensures
        r == near(c),
{
    -REACH <= c && c <= REACH
}

fn is_far(c: i32) -> (r: bool)
    ensures
        r == far(c),
{
    -FAR <= c && c <= FAR
}

fn is_wide(e: u32) -> (r: bool)
    ensures
        r == wide(e),
{
    e < FAR as u32
}

fn is_small(e: u32) -> (r: bool)
    ensures
        r == small(e),
{
    e <= REACH as u32
}

impl DrawOp {
    /// Whether this operation can be drawn.
    pub fn fits(&self) -> (r: bool)
        ensures
            r == fits(self@),
    {
        match self {
            DrawOp::Blank => true,
            DrawOp::Wipe => true,
            DrawOp::Erase { x, y, width, height } => is_far(*x) && is_far(*y) && is_wide(*width)
                && is_wide(*height),
            DrawOp::Line { x0, y0, x1, y1, stroke } => is_near(*x0) && is_near(*y0) && is_near(*x1)
                && is_near(*y1) && *stroke <= MAX_STROKE,
            DrawOp::Circle { x, y, diameter, stroke } => is_near(*x) && is_near(*y) && is_small(
                *diameter,
            ) && *stroke <= MAX_STROKE,
            DrawOp::Label { text, x, y, font } => is_far(*x) && is_far(*y)
                && text.as_str().unicode_len() <= MAX_GLYPHS,
            DrawOp::Stamp { icon, x, y } => is_far(*x) && is_far(*y),
            DrawOp::Dot { x, y, black } => is_far(*x) && is_far(*y),
        }
    }
}

} // verus!
