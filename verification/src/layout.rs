//! The layout of the panel: where every line, icon and text goes.
//!
//! Each part of the picture is a plan, a list of drawing operations. A plan is
//! given twice: as a specification, which the contracts speak of, and as a
//! function that builds it.

use crate::ops::all_fit;
use crate::ops::fits;
use crate::ops::far;
use crate::ops::FAR;
use crate::ops::REACH;
use crate::ops::DrawOp;
use crate::ops::Font;
use crate::ops::Icon;
use crate::ops::Op;
use crate::ops::MAX_GLYPHS;
use crate::text::glyph_count;
use crate::text::joined;
use crate::display::DisplayError;
use crate::types::Hourly;
use crate::types::HourlyNew;
use crate::types::Text;
use vstd::prelude::*;
use vstd::string::StringExecFns;

verus! {

/// The zones of the panel that show a reading.
#[derive(Debug, Clone, Copy, PartialEq, Eq, Structural)]
pub enum Zone {
    /// The top circle: the load of the household.
    Top,
    /// The bottom circle: the charge of the battery.
    Bottom,
    /// The left circle: the power of the inverter.
    Left,
    /// The right circle: the power of the grid.
    Right,
    /// The corner that shows the time of the last message.
    Time,
}

/// A line between the hub in the middle and one of the four circles, with or
/// without an arrowhead at the circle.
#[derive(Debug, Clone, Copy, PartialEq, Eq, Structural)]
pub enum ConnectionDirection {
    Top(bool),
    Right(bool),
    Left(bool),
    Bottom(bool),
}

/// What is drawn between the hub and one of the four circles. The flag of the
/// connection asks for an arrowhead at the circle, for power that flows away
/// from the hub; `returning` asks for one that points back to the hub.
#[derive(Debug, Clone, Copy, PartialEq, Eq, Structural)]
pub struct Indicator {
    pub connection: ConnectionDirection,
    pub returning: bool,
}

/// The way an arrowhead at one of the four circles points.
#[derive(Debug, Clone, Copy, PartialEq, Eq, Structural)]
pub enum ArrowDirection {
    Left,
    Right,
    Down,
    Up,
}

/// The way an arrow beside a sun points: up for sunrise, down for sunset.
#[derive(Debug, Clone, Copy, PartialEq, Eq, Structural)]
pub enum SimpleArrowDirection {
    Up,
    Down,
}

/// Where the text of a reading starts, by zone and by its number of glyphs, so
/// that it looks centred.
pub open spec fn readout_x(zone: Zone, glyphs: nat) -> i32 {
    match zone {
        Zone::Top => if glyphs == 1 {
            74
        } else {
            65
        },
        Zone::Bottom => if glyphs == 2 {
            69
        } else {
            60
        },
        Zone::Left => if glyphs == 1 {
            31
        } else {
            22
        },
        Zone::Right => if glyphs == 2 {
            111
        } else {
            103
        },
        Zone::Time => if glyphs >= 3 {
            110
        } else {
            107
        },
    }
}

/// The baseline of the text of a zone.
pub open spec fn readout_y(zone: Zone) -> i32 {
    match zone {
        Zone::Top => 23,
        Zone::Bottom => 107,
        Zone::Left => 65,
        Zone::Right => 65,
        Zone::Time => 10,
    }
}

/// The point at which an operation starts: the corner of a rectangle, of the
/// box of a circle or of an icon, the start of a line, the left end of the
/// baseline of a text. The operations on the whole frame start at the origin.
pub open spec fn origin(op: Op) -> (i32, i32) {
    match op {
        Op::Blank => (0, 0),
        Op::Wipe => (0, 0),
        Op::Erase { x, y, width, height } => (x, y),
        Op::Line { x0, y0, x1, y1, stroke } => (x0, y0),
        Op::Circle { x, y, diameter, stroke } => (x, y),
        Op::Label { text, x, y, font } => (x, y),
        Op::Stamp { icon, x, y } => (x, y),
        Op::Dot { x, y, black } => (x, y),
    }
}

/// The text of one reading in its zone.
pub open spec fn readout(zone: Zone, text: Text, font: Font) -> Op {
    Op::Label { text, x: readout_x(zone, text.len()), y: readout_y(zone), font }
}

/// How far an entry of the forecast table is shifted to the right in its
/// column, by its number of glyphs.
pub open spec fn cell_shift(glyphs: nat) -> i32 {
    if glyphs == 3 {
        10
    } else if glyphs == 4 {
        5
    } else {
        0
    }
}

/// How far the battery percentage is shifted to the right, by its number of
/// glyphs.
pub open spec fn percentage_shift(glyphs: nat) -> i32 {
    if glyphs == 3 {
        0
    } else if glyphs == 2 {
        5
    } else {
        10
    }
}

/// Where the columns of the forecast table start, measured from the left edge
/// of the table.
pub open spec fn column_offset(column: nat) -> i32 {
    if column == 0 {
        20
    } else if column == 1 {
        50
    } else if column == 2 {
        80
    } else {
        110
    }
}

/// The place of a reading depends on its zone and on the number of its glyphs,
/// and on nothing else: two texts of the same length start at the same point,
/// whatever they say.
pub proof fn readout_placed_by_glyph_count(zone: Zone, a: Text, b: Text, font: Font)
    requires
        a.len() == b.len(),
    ensures
        origin(readout(zone, a, font)) == origin(readout(zone, b, font)),
        origin(readout(zone, a, font)) == (readout_x(zone, a.len()), readout_y(zone)),
{
}

/// In every zone, all readings of three glyphs or more start at the same
/// offset; only readings of one or of two glyphs are set apart.
pub proof fn long_readings_share_an_offset(zone: Zone, glyphs: nat, other: nat)
    requires
        glyphs >= 3,
        other >= 3,
    ensures
        readout_x(zone, glyphs) == readout_x(zone, other),
{
}

pub open spec fn line(x0: i32, y0: i32, x1: i32, y1: i32, stroke: u32) -> Op {
    Op::Line { x0, y0, x1, y1, stroke }
}

pub open spec fn label(text: Text, x: i32, y: i32, font: Font) -> Op {
    Op::Label { text, x, y, font }
}

/// The five readings: household, battery, inverter, grid, time.
pub open spec fn text_plan(
    font: Font,
    circle_top: Text,
    circle_bottom: Text,
    circle_left: Text,
    circle_right: Text,
    update: Text,
) -> Seq<Op> {
    seq![
        readout(Zone::Top, circle_top, font),
        readout(Zone::Bottom, circle_bottom, font),
        readout(Zone::Left, circle_left, font),
        readout(Zone::Right, circle_right, font),
        readout(Zone::Time, update, font),
    ]
}

/// Erases the five readings and the hub between the circles.
pub open spec fn clear_text_plan() -> Seq<Op> {
    seq![
        Op::Erase { x: 65, y: 15, width: 25, height: 10 },
        Op::Erase { x: 60, y: 99, width: 30, height: 10 },
        Op::Erase { x: 22, y: 57, width: 25, height: 10 },
        Op::Erase { x: 102, y: 57, width: 30, height: 10 },
        Op::Erase { x: 105, y: 1, width: 42, height: 18 },
        Op::Erase { x: 54, y: 43, width: 42, height: 41 },
    ]
}

/// A message in the lower half of the panel.
pub open spec fn error_message_plan(message: Text, font: Font) -> Seq<Op> {
    seq![label(message, 58, 100, font)]
}

/// The two strokes of an arrowhead at one of the circles.
pub open spec fn arrow_plan(direction: ArrowDirection) -> Seq<Op> {
    match direction {
        ArrowDirection::Up => seq![line(75, 44, 82, 51, 1), line(74, 44, 67, 51, 1)],
        ArrowDirection::Right => seq![line(94, 63, 87, 56, 1), line(94, 64, 87, 71, 1)],
        ArrowDirection::Down => seq![line(74, 82, 67, 75, 1), line(75, 82, 82, 75, 1)],
        ArrowDirection::Left => seq![line(55, 64, 62, 71, 1), line(55, 63, 62, 56, 1)],
    }
}

/// The line from the hub to a circle.
pub open spec fn connection_line(connection: ConnectionDirection) -> Op {
    match connection {
        ConnectionDirection::Top(_) => line(75, 64, 75, 44, 2),
        ConnectionDirection::Left(_) => line(74, 63, 55, 63, 2),
        ConnectionDirection::Right(_) => line(74, 64, 94, 64, 2),
        ConnectionDirection::Bottom(_) => line(74, 64, 74, 82, 2),
    }
}

/// Whether a connection carries an arrowhead.
pub open spec fn has_arrow(connection: ConnectionDirection) -> bool {
    match connection {
        ConnectionDirection::Top(arrow) => arrow,
        ConnectionDirection::Left(arrow) => arrow,
        ConnectionDirection::Right(arrow) => arrow,
        ConnectionDirection::Bottom(arrow) => arrow,
    }
}

/// The way the arrowhead of a connection points: from the hub to the circle.
pub open spec fn arrow_of(connection: ConnectionDirection) -> ArrowDirection {
    match connection {
        ConnectionDirection::Top(_) => ArrowDirection::Up,
        ConnectionDirection::Left(_) => ArrowDirection::Left,
        ConnectionDirection::Right(_) => ArrowDirection::Right,
        ConnectionDirection::Bottom(_) => ArrowDirection::Down,
    }
}

/// A connection: its line, and its arrowhead if it has one.
pub open spec fn connection_plan(connection: ConnectionDirection) -> Seq<Op> {
    if has_arrow(connection) {
        seq![connection_line(connection)] + arrow_plan(arrow_of(connection))
    } else {
        seq![connection_line(connection)]
    }
}

/// The two strokes of an arrowhead on a connection that points back from the
/// circle to the hub: the arrowhead of the connection, turned round.
pub open spec fn return_arrow_plan(connection: ConnectionDirection) -> Seq<Op> {
    match connection {
        ConnectionDirection::Top(_) => seq![line(75, 51, 82, 44, 1), line(74, 51, 67, 44, 1)],
        ConnectionDirection::Right(_) => seq![line(87, 63, 94, 56, 1), line(87, 64, 94, 71, 1)],
        ConnectionDirection::Bottom(_) => seq![line(74, 75, 67, 82, 1), line(75, 75, 82, 82, 1)],
        ConnectionDirection::Left(_) => seq![line(62, 64, 55, 71, 1), line(62, 63, 55, 56, 1)],
    }
}

/// An indicator: a connection, and the arrowhead that points back to the hub
/// if power flows that way.
pub open spec fn indicator_plan(indicator: Indicator) -> Seq<Op> {
    if indicator.returning {
        connection_plan(indicator.connection) + return_arrow_plan(indicator.connection)
    } else {
        connection_plan(indicator.connection)
    }
}

/// Several indicators, one after the other.
pub open spec fn indicators_plan(indicators: Seq<Indicator>) -> Seq<Op>
    decreases indicators.len(),
{
    if indicators.len() == 0 {
        Seq::empty()
    } else {
        indicators_plan(indicators.drop_last()) + indicator_plan(indicators.last())
    }
}

/// The tab in the bottom left corner that says the feed is connected.
pub open spec fn connected_plan() -> Seq<Op> {
    seq![
        line(0, 118, 40, 118, 1),
        line(40, 118, 40, 128, 1),
        label("Connected"@, 2, 125, Font::Font4x6),
    ]
}

/// The battery percentage in the top left corner.
pub open spec fn battery_percentage_plan(percentage: Text) -> Seq<Op> {
    seq![
        Op::Erase { x: 1, y: 1, width: 28, height: 12 },
        label(
            percentage + "%"@,
            (3 + percentage_shift(percentage.len())) as i32,
            10,
            Font::Font6x10,
        ),
    ]
}

/// The frame of the battery percentage, with a full battery in it.
pub open spec fn default_battery_percentage_plan() -> Seq<Op> {
    seq![line(30, 0, 30, 15, 2), line(0, 15, 30, 15, 2), label("100%"@, 3, 10, Font::Font6x10)]
}

/// The times of sunrise and sunset.
pub open spec fn sun_data_plan(sunrise: Text, sunset: Text) -> Seq<Op> {
    seq![
        Op::Erase { x: 190, y: 3, width: 30, height: 12 },
        Op::Erase { x: 260, y: 3, width: 30, height: 12 },
        label(sunrise, 190, 12, Font::Font6x10),
        label(sunset, 260, 12, Font::Font6x10),
    ]
}

/// One entry of the forecast table.
pub open spec fn weather_cell(value: Text, x_offset: i32, y: i32) -> Op {
    label(value, (155 + x_offset + cell_shift(value.len())) as i32, y, Font::Font5x8)
}

/// One column of the forecast table: rain, cloud cover, UV index, temperature.
pub open spec fn row_weather_plan(
    rain: Text,
    cloud: Text,
    uv: Text,
    temp: Text,
    x_offset: i32,
) -> Seq<Op> {
    seq![
        weather_cell(rain, x_offset, 27),
        weather_cell(cloud, x_offset, 38),
        weather_cell(uv, x_offset, 50),
        weather_cell(temp, x_offset, 62),
    ]
}

/// The lines between the columns of the forecast table.
pub open spec fn weather_separators_plan() -> Seq<Op> {
    seq![line(203, 18, 203, 65, 1), line(232, 18, 232, 65, 1), line(261, 18, 261, 65, 1)]
}

/// An arrow beside a sun, with its tip or its tail at `(x, y)`.
pub open spec fn arrow_simple_plan(direction: SimpleArrowDirection, x: i32, y: i32) -> Seq<Op> {
    match direction {
        SimpleArrowDirection::Up => seq![
            line(x, y, x, (y + 11) as i32, 2),
            line(x, y, (x + 6) as i32, (y + 6) as i32, 2),
            line(x, y, (x - 6) as i32, (y + 6) as i32, 2),
            Op::Dot { x: (x - 6) as i32, y: (y + 6) as i32, black: false },
        ],
        SimpleArrowDirection::Down => seq![
            line(x, y, x, (y + 11) as i32, 2),
            line((x + 1) as i32, (y + 11) as i32, (x - 5) as i32, (y + 5) as i32, 2),
            line((x + 1) as i32, (y + 11) as i32, (x + 7) as i32, (y + 5) as i32, 2),
            Op::Dot { x: (x + 7) as i32, y: (y + 5) as i32, black: false },
        ],
    }
}

/// The forecast table of the first four hours of a forecast, given as the
/// columns' entries.
pub open spec fn weather_columns_plan(
    rain: Seq<Text>,
    cloud: Seq<Text>,
    uv: Seq<Text>,
    temp: Seq<Text>,
    columns: nat,
) -> Seq<Op>
    decreases columns,
{
    if columns == 0 {
        Seq::empty()
    } else {
        let k = (columns - 1) as nat;
        weather_columns_plan(rain, cloud, uv, temp, k) + row_weather_plan(
            rain[k as int],
            cloud[k as int],
            uv[k as int],
            temp[k as int],
            column_offset(k),
        )
    }
}

/// The forecast table: erased, filled in, and ruled again.
pub open spec fn weather_data_plan(rain: Seq<Text>, cloud: Seq<Text>, uv: Seq<Text>, temp: Seq<
    Text,
>) -> Seq<Op> {
    seq![Op::Erase { x: 172, y: 18, width: 130, height: 50 }] + weather_columns_plan(
        rain,
        cloud,
        uv,
        temp,
        4,
    ) + weather_separators_plan()
}

/// The forecast with nothing known yet: the icons, the arrows and a table of
/// placeholders.
pub open spec fn default_weather_plan() -> Seq<Op> {
    seq![line(149, 70, 296, 70, 2), Op::Stamp { icon: Icon::Sun, x: 155, y: 2 }]
        + arrow_simple_plan(SimpleArrowDirection::Up, 178, 3) + seq![
        Op::Stamp { icon: Icon::Sun, x: 225, y: 2 },
    ] + arrow_simple_plan(SimpleArrowDirection::Down, 248, 3) + seq![
        label("00.00"@, 190, 12, Font::Font6x10),
        label("00.00"@, 260, 12, Font::Font6x10),
        Op::Stamp { icon: Icon::Raindrops, x: 155, y: 15 },
        Op::Stamp { icon: Icon::Cloud, x: 155, y: 28 },
        label("UV"@, 160, 50, Font::Font6x10),
        Op::Stamp { icon: Icon::Thermometer, x: 156, y: 52 },
    ] + row_weather_plan("0.0"@, "100.0"@, "0.0"@, "10.0"@, 20) + row_weather_plan(
        "0.0"@,
        "100.0"@,
        "0.0"@,
        "10.0"@,
        50,
    ) + row_weather_plan("0.0"@, "100.0"@, "0.0"@, "10.0"@, 80) + row_weather_plan(
        "0.0"@,
        "100.0"@,
        "0.0"@,
        "10.0"@,
        110,
    ) + weather_separators_plan()
}

/// The totals with nothing known yet.
pub open spec fn default_total_plan() -> Seq<Op> {
    seq![
        label("Total"@, 154, 80, Font::Font6x12),
        line(150, 86, 190, 86, 2),
        line(190, 86, 190, 70, 2),
        Op::Stamp { icon: Icon::Sun, x: 180, y: 90 },
        label("00.00 kW"@, 205, 100, Font::Font9x15),
        Op::Stamp { icon: Icon::House, x: 180, y: 110 },
        label("00.00 kW"@, 205, 120, Font::Font9x15),
    ]
}

/// The totals of the period: what was generated above what was consumed.
pub open spec fn total_plan(consumption: Text, generated: Text) -> Seq<Op> {
    seq![
        Op::Erase { x: 205, y: 90, width: 45, height: 12 },
        Op::Erase { x: 205, y: 110, width: 45, height: 12 },
        label(generated, 205, 100, Font::Font9x15),
        label(consumption, 205, 120, Font::Font9x15),
    ]
}

/// The four circles, their icons, the dividers and the units.
pub open spec fn chrome_plan() -> Seq<Op> {
    seq![
        Op::Circle { x: 55, y: 2, diameter: 40, stroke: 2 },
        Op::Circle { x: 55, y: 86, diameter: 40, stroke: 2 },
        Op::Circle { x: 13, y: 44, diameter: 40, stroke: 2 },
        Op::Circle { x: 97, y: 44, diameter: 40, stroke: 2 },
        Op::Erase { x: 66, y: 0, width: 18, height: 15 },
        Op::Erase { x: 66, y: 84, width: 18, height: 15 },
        Op::Erase { x: 24, y: 42, width: 18, height: 15 },
        Op::Erase { x: 108, y: 42, width: 18, height: 15 },
        Op::Stamp { icon: Icon::House, x: 66, y: 0 },
        Op::Stamp { icon: Icon::LightningBolt, x: 108, y: 43 },
        Op::Stamp { icon: Icon::Battery, x: 66, y: 84 },
        line(78, 85, 71, 96, 1),
        Op::Stamp { icon: Icon::Sun, x: 24, y: 42 },
        line(149, 0, 149, 128, 2),
        line(103, 0, 103, 20, 2),
        line(103, 20, 149, 20, 2),
        label("%"@, 71, 120, Font::Font9x15),
        label("kW"@, 70, 34, Font::Font6x10),
        label("kW"@, 27, 76, Font::Font6x10),
        label("kW"@, 112, 76, Font::Font6x10),
        label("%"@, 71, 120, Font::Font9x15),
    ]
}

/// The whole picture with nothing known yet.
pub open spec fn default_display_plan(font: Font) -> Seq<Op> {
    default_battery_percentage_plan() + chrome_plan() + text_plan(
        font,
        "0.00"@,
        "-0.00"@,
        "0.00"@,
        "-0.00"@,
        "0:00PM"@,
    ) + default_weather_plan() + default_total_plan()
}

/// Whether a text is short enough to be drawn in 32 bits.
pub open spec fn drawable(text: Text) -> bool {
    text.len() <= MAX_GLYPHS
}

/// Two plans in a row fit when both do.
pub proof fn all_fit_in_sequence(first: Seq<Op>, second: Seq<Op>)
    ensures
        all_fit(first + second) == (all_fit(first) && all_fit(second)),
{
    if all_fit(first + second) {
        assert forall|i: int| 0 <= i < first.len() implies fits(#[trigger] first[i]) by {
            assert(first[i] == (first + second)[i]);
        }
        assert forall|i: int| 0 <= i < second.len() implies fits(#[trigger] second[i]) by {
            assert(second[i] == (first + second)[first.len() + i]);
        }
    }
}

/// One plan after the other.
pub fn chained(first: Vec<DrawOp>, second: Vec<DrawOp>) -> (plan: Vec<DrawOp>)
    ensures
        plan.deep_view() == first.deep_view() + second.deep_view(),
        all_fit(plan.deep_view()) == (all_fit(first.deep_view()) && all_fit(second.deep_view())),
{
    let mut plan = first;
    let mut rest = second;
    plan.append(&mut rest);
    proof {
        assert(plan.deep_view() =~= first.deep_view() + second.deep_view());
        all_fit_in_sequence(first.deep_view(), second.deep_view());
    }
    plan
}

fn line_op(x0: i32, y0: i32, x1: i32, y1: i32, stroke: u32) -> (op: DrawOp)
    ensures
        op@ == line(x0, y0, x1, y1, stroke),
{
    DrawOp::Line { x0, y0, x1, y1, stroke }
}

fn label_op(text: &str, x: i32, y: i32, font: Font) -> (op: DrawOp)
    ensures
        op@ == label(text@, x, y, font),
{
    DrawOp::Label { text: String::from_str(text), x, y, font }
}

/// Where the text of a reading starts in its zone.
pub fn readout_offset(zone: Zone, glyphs: usize) -> (x: i32)
    ensures
        x == readout_x(zone, glyphs as nat),
{
    match zone {
        Zone::Top => if glyphs == 1 {
            74
        } else {
            65
        },
        Zone::Bottom => if glyphs == 2 {
            69
        } else {
            60
        },
        Zone::Left => if glyphs == 1 {
            31
        } else {
            22
        },
        Zone::Right => if glyphs == 2 {
            111
        } else {
            103
        },
        Zone::Time => if glyphs >= 3 {
            110
        } else {
            107
        },
    }
}

fn readout_op(zone: Zone, text: &str, font: Font) -> (op: DrawOp)
    ensures
        op@ == readout(zone, text@, font),
        fits(op@) == drawable(text@),
{
    let x = readout_offset(zone, glyph_count(text));
    let y: i32 = match zone {
        Zone::Top => 23,
        Zone::Bottom => 107,
        Zone::Left => 65,
        Zone::Right => 65,
        Zone::Time => 10,
    };
    label_op(text, x, y, font)
}

/// Builds the plan of the five readings.
pub fn text_ops(
    font: Font,
    circle_top: &str,
    circle_bottom: &str,
    circle_left: &str,
    circle_right: &str,
    update: &str,
) -> (plan: Vec<DrawOp>)
    ensures
        plan.deep_view() == text_plan(
            font,
            circle_top@,
            circle_bottom@,
            circle_left@,
            circle_right@,
            update@,
        ),
        all_fit(plan.deep_view()) == (drawable(circle_top@) && drawable(circle_bottom@)
            && drawable(circle_left@) && drawable(circle_right@) && drawable(update@)),
{
    let plan = vec![
        readout_op(Zone::Top, circle_top, font),
        readout_op(Zone::Bottom, circle_bottom, font),
        readout_op(Zone::Left, circle_left, font),
        readout_op(Zone::Right, circle_right, font),
        readout_op(Zone::Time, update, font),
    ];
    proof {
        let spec = text_plan(font, circle_top@, circle_bottom@, circle_left@, circle_right@, update@);
        assert(plan.deep_view() =~= spec);
        assert(fits(spec[0]) == drawable(circle_top@));
        assert(fits(spec[1]) == drawable(circle_bottom@));
        assert(fits(spec[2]) == drawable(circle_left@));
        assert(fits(spec[3]) == drawable(circle_right@));
        assert(fits(spec[4]) == drawable(update@));
    }
    plan
}

/// Builds the plan that erases the readings and the hub.
pub fn clear_text_ops() -> (plan: Vec<DrawOp>)
    ensures
        plan.deep_view() == clear_text_plan(),
        all_fit(plan.deep_view()),
{
    let plan = vec![
        DrawOp::Erase { x: 65, y: 15, width: 25, height: 10 },
        DrawOp::Erase { x: 60, y: 99, width: 30, height: 10 },
        DrawOp::Erase { x: 22, y: 57, width: 25, height: 10 },
        DrawOp::Erase { x: 102, y: 57, width: 30, height: 10 },
        DrawOp::Erase { x: 105, y: 1, width: 42, height: 18 },
        DrawOp::Erase { x: 54, y: 43, width: 42, height: 41 },
    ];
    assert(plan.deep_view() =~= clear_text_plan());
    plan
}

/// Builds the plan of a message in the lower half of the panel.
pub fn error_message_ops(message: &str, font: Font) -> (plan: Vec<DrawOp>)
    ensures
        plan.deep_view() == error_message_plan(message@, font),
        all_fit(plan.deep_view()) == drawable(message@),
{
    let plan = vec![label_op(message, 58, 100, font)];
    proof {
        assert(plan.deep_view() =~= error_message_plan(message@, font));
        assert(fits(error_message_plan(message@, font)[0]) == drawable(message@));
    }
    plan
}

/// Builds the plan of an arrowhead.
pub fn arrow_ops(direction: ArrowDirection) -> (plan: Vec<DrawOp>)
    ensures
        plan.deep_view() == arrow_plan(direction),
        all_fit(plan.deep_view()),
{
    let plan = match direction {
        ArrowDirection::Up => vec![line_op(75, 44, 82, 51, 1), line_op(74, 44, 67, 51, 1)],
        ArrowDirection::Right => vec![line_op(94, 63, 87, 56, 1), line_op(94, 64, 87, 71, 1)],
        ArrowDirection::Down => vec![line_op(74, 82, 67, 75, 1), line_op(75, 82, 82, 75, 1)],
        ArrowDirection::Left => vec![line_op(55, 64, 62, 71, 1), line_op(55, 63, 62, 56, 1)],
    };
    assert(plan.deep_view() =~= arrow_plan(direction));
    plan
}

/// Builds the plan of a connection.
pub fn connection_ops(connection: ConnectionDirection) -> (plan: Vec<DrawOp>)
    ensures
        plan.deep_view() == connection_plan(connection),
        all_fit(plan.deep_view()),
{
    let (stroke, arrow, direction) = match connection {
        ConnectionDirection::Top(arrow) => (line_op(75, 64, 75, 44, 2), arrow, ArrowDirection::Up),
        ConnectionDirection::Left(arrow) => (
            line_op(74, 63, 55, 63, 2),
            arrow,
            ArrowDirection::Left,
        ),
        ConnectionDirection::Right(arrow) => (
            line_op(74, 64, 94, 64, 2),
            arrow,
            ArrowDirection::Right,
        ),
        ConnectionDirection::Bottom(arrow) => (
            line_op(74, 64, 74, 82, 2),
            arrow,
            ArrowDirection::Down,
        ),
    };
    let shaft = vec![stroke];
    assert(shaft.deep_view() =~= seq![connection_line(connection)]);
    if arrow {
        chained(shaft, arrow_ops(direction))
    } else {
        shaft
    }
}

/// Builds the plan of an arrowhead that points back to the hub.
pub fn return_arrow_ops(connection: ConnectionDirection) -> (plan: Vec<DrawOp>)
    ensures
        plan.deep_view() == return_arrow_plan(connection),
        all_fit(plan.deep_view()),
{
    let plan = match connection {
        ConnectionDirection::Top(_) => vec![line_op(75, 51, 82, 44, 1), line_op(74, 51, 67, 44, 1)],
        ConnectionDirection::Right(_) => vec![
            line_op(87, 63, 94, 56, 1),
            line_op(87, 64, 94, 71, 1),
        ],
        ConnectionDirection::Bottom(_) => vec![
            line_op(74, 75, 67, 82, 1),
            line_op(75, 75, 82, 82, 1),
        ],
        ConnectionDirection::Left(_) => vec![
            line_op(62, 64, 55, 71, 1),
            line_op(62, 63, 55, 56, 1),
        ],
    };
    assert(plan.deep_view() =~= return_arrow_plan(connection));
    plan
}

/// Builds the plan of an indicator.
pub fn indicator_ops(indicator: Indicator) -> (plan: Vec<DrawOp>)
    ensures
        plan.deep_view() == indicator_plan(indicator),
        all_fit(plan.deep_view()),
{
    let plan = connection_ops(indicator.connection);
    if indicator.returning {
        chained(plan, return_arrow_ops(indicator.connection))
    } else {
        plan
    }
}

/// Builds the plan of several indicators.
pub fn indicators_ops(indicators: &Vec<Indicator>) -> (plan: Vec<DrawOp>)
    ensures
        plan.deep_view() == indicators_plan(indicators@),
        all_fit(plan.deep_view()),
{
    let mut plan: Vec<DrawOp> = Vec::new();
    assert(plan.deep_view() =~= Seq::<Op>::empty());
    let mut i: usize = 0;
    while i < indicators.len()
        invariant
            i <= indicators.len(),
            plan.deep_view() == indicators_plan(indicators@.take(i as int)),
            all_fit(plan.deep_view()),
        decreases indicators.len() - i,
    {
        assert(indicators@.take(i as int + 1).drop_last() =~= indicators@.take(i as int));
        plan = chained(plan, indicator_ops(indicators[i]));
        i = i + 1;
    }
    assert(indicators@.take(i as int) =~= indicators@);
    plan
}

/// Builds the plan of the tab that says the feed is connected.
pub fn connected_ops() -> (plan: Vec<DrawOp>)
    ensures
        plan.deep_view() == connected_plan(),
        all_fit(plan.deep_view()),
{
    let plan = vec![
        line_op(0, 118, 40, 118, 1),
        line_op(40, 118, 40, 128, 1),
        label_op("Connected", 2, 125, Font::Font4x6),
    ];
    proof {
        reveal_strlit("Connected");
        assert(plan.deep_view() =~= connected_plan());
    }
    plan
}

/// Builds the plan of the battery percentage.
pub fn battery_percentage_ops(percentage: &str) -> (plan: Vec<DrawOp>)
    ensures
        plan.deep_view() == battery_percentage_plan(percentage@),
        all_fit(plan.deep_view()) == (percentage@.len() < MAX_GLYPHS),
{
    let glyphs = glyph_count(percentage);
    let shift: i32 = if glyphs == 3 {
        0
    } else if glyphs == 2 {
        5
    } else {
        10
    };
    let text = joined(percentage, "%");
    let plan = vec![
        DrawOp::Erase { x: 1, y: 1, width: 28, height: 12 },
        DrawOp::Label { text, x: 3 + shift, y: 10, font: Font::Font6x10 },
    ];
    proof {
        reveal_strlit("%");
        let spec = battery_percentage_plan(percentage@);
        assert(plan.deep_view() =~= spec);
        assert(fits(spec[0]));
        assert(fits(spec[1]) == (percentage@.len() < MAX_GLYPHS));
    }
    plan
}

/// Builds the plan of the frame of the battery percentage.
pub fn default_battery_percentage_ops() -> (plan: Vec<DrawOp>)
    ensures
        plan.deep_view() == default_battery_percentage_plan(),
        all_fit(plan.deep_view()),
{
    let plan = vec![
        line_op(30, 0, 30, 15, 2),
        line_op(0, 15, 30, 15, 2),
        label_op("100%", 3, 10, Font::Font6x10),
    ];
    proof {
        reveal_strlit("100%");
        assert(plan.deep_view() =~= default_battery_percentage_plan());
    }
    plan
}

/// Builds the plan of the times of sunrise and sunset.
pub fn sun_data_ops(sunrise: &str, sunset: &str) -> (plan: Vec<DrawOp>)
    ensures
        plan.deep_view() == sun_data_plan(sunrise@, sunset@),
        all_fit(plan.deep_view()) == (drawable(sunrise@) && drawable(sunset@)),
{
    let plan = vec![
        DrawOp::Erase { x: 190, y: 3, width: 30, height: 12 },
        DrawOp::Erase { x: 260, y: 3, width: 30, height: 12 },
        label_op(sunrise, 190, 12, Font::Font6x10),
        label_op(sunset, 260, 12, Font::Font6x10),
    ];
    proof {
        let spec = sun_data_plan(sunrise@, sunset@);
        assert(plan.deep_view() =~= spec);
        assert(fits(spec[0]) && fits(spec[1]));
        assert(fits(spec[2]) == drawable(sunrise@));
        assert(fits(spec[3]) == drawable(sunset@));
    }
    plan
}

fn weather_cell_op(value: &str, x_offset: i32, y: i32) -> (op: DrawOp)
    requires
        155 + x_offset + 10 <= i32::MAX,
        far(y),
    ensures
        op@ == weather_cell(value@, x_offset, y),
        row_within_reach(x_offset) ==> fits(op@) == drawable(value@),
{
    let glyphs = glyph_count(value);
    let shift: i32 = if glyphs == 3 {
        10
    } else if glyphs == 4 {
        5
    } else {
        0
    };
    label_op(value, 155 + x_offset + shift, y, Font::Font5x8)
}

/// Builds the plan of one column of the forecast table. The offset must leave
/// room for the table's left edge and the largest shift in 32 bits.
pub fn row_weather_ops(
    rain: &str,
    cloud: &str,
    uv: &str,
    temp: &str,
    x_offset: i32,
) -> (plan: Vec<DrawOp>)
    requires
        155 + x_offset + 10 <= i32::MAX,
    ensures
        plan.deep_view() == row_weather_plan(rain@, cloud@, uv@, temp@, x_offset),
        row_within_reach(x_offset) ==> all_fit(plan.deep_view()) == (drawable(rain@) && drawable(
            cloud@,
        ) && drawable(uv@) && drawable(temp@)),
{
    let plan = vec![
        weather_cell_op(rain, x_offset, 27),
        weather_cell_op(cloud, x_offset, 38),
        weather_cell_op(uv, x_offset, 50),
        weather_cell_op(temp, x_offset, 62),
    ];
    proof {
        let spec = row_weather_plan(rain@, cloud@, uv@, temp@, x_offset);
        assert(plan.deep_view() =~= spec);
        if row_within_reach(x_offset) {
            assert(fits(spec[0]) == drawable(rain@));
            assert(fits(spec[1]) == drawable(cloud@));
            assert(fits(spec[2]) == drawable(uv@));
            assert(fits(spec[3]) == drawable(temp@));
        }
    }
    plan
}

/// Builds the plan of the lines between the columns of the forecast table.
pub fn weather_separators_ops() -> (plan: Vec<DrawOp>)
    ensures
        plan.deep_view() == weather_separators_plan(),
        all_fit(plan.deep_view()),
{
    let plan = vec![
        line_op(203, 18, 203, 65, 1),
        line_op(232, 18, 232, 65, 1),
        line_op(261, 18, 261, 65, 1),
    ];
    assert(plan.deep_view() =~= weather_separators_plan());
    plan
}

/// Builds the plan of an arrow beside a sun. The start must leave room for the
/// arrow in 32 bits.
pub fn arrow_simple_ops(direction: SimpleArrowDirection, x: i32, y: i32) -> (plan: Vec<DrawOp>)
    requires
        i32::MIN <= x - 6,
        x + 7 <= i32::MAX,
        y + 11 <= i32::MAX,
    ensures
        plan.deep_view() == arrow_simple_plan(direction, x, y),
        arrow_within_reach(x, y) ==> all_fit(plan.deep_view()),
{
    let plan = match direction {
        SimpleArrowDirection::Up => vec![
            line_op(x, y, x, y + 11, 2),
            line_op(x, y, x + 6, y + 6, 2),
            line_op(x, y, x - 6, y + 6, 2),
            DrawOp::Dot { x: x - 6, y: y + 6, black: false },
        ],
        SimpleArrowDirection::Down => vec![
            line_op(x, y, x, y + 11, 2),
            line_op(x + 1, y + 11, x - 5, y + 5, 2),
            line_op(x + 1, y + 11, x + 7, y + 5, 2),
            DrawOp::Dot { x: x + 7, y: y + 5, black: false },
        ],
    };
    assert(plan.deep_view() =~= arrow_simple_plan(direction, x, y));
    plan
}

/// Whether a column of the forecast table at this offset starts within reach,
/// whatever its shift.
pub open spec fn row_within_reach(x_offset: i32) -> bool {
    -FAR <= 155 + x_offset && 155 + x_offset + 10 <= FAR
}

/// Whether an arrow beside a sun that starts here lies within reach.
pub open spec fn arrow_within_reach(x: i32, y: i32) -> bool {
    -REACH <= x - 6 && x + 7 <= REACH && -REACH <= y && y + 11 <= REACH
}

/// Whether a forecast holds the four hours that the table shows.
pub open spec fn forecast_complete(hourly: Hourly) -> bool {
    hourly.rain.len() >= 4 && hourly.cloud_cover.len() >= 4 && hourly.uv_index.len() >= 4
        && hourly.temperature_2_m.len() >= 4
}

/// Whether the entries of the first `hours` hours are short enough to be drawn.
pub open spec fn forecast_drawable(hourly: Hourly, hours: nat) -> bool {
    forall|k: int|
        #![trigger hourly.rain[k]]
        #![trigger hourly.cloud_cover[k]]
        #![trigger hourly.uv_index[k]]
        #![trigger hourly.temperature_2_m[k]]
        0 <= k < hours ==> drawable(hourly.rain[k]) && drawable(hourly.cloud_cover[k])
            && drawable(hourly.uv_index[k]) && drawable(hourly.temperature_2_m[k])
}

/// How many columns of the table a forecast fills: one for every hour that all
/// four rows hold, up to four.
pub open spec fn hours_shown(hourly: Hourly) -> nat {
    let rows = if hourly.rain.len() <= hourly.cloud_cover.len() {
        hourly.rain.len()
    } else {
        hourly.cloud_cover.len()
    };
    let more = if hourly.uv_index.len() <= hourly.temperature_2_m.len() {
        hourly.uv_index.len()
    } else {
        hourly.temperature_2_m.len()
    };
    let hours = if rows <= more {
        rows
    } else {
        more
    };
    if hours <= 4 {
        hours
    } else {
        4
    }
}

/// The forecast table erased and its first columns filled in.
pub open spec fn forecast_columns_plan(hourly: Hourly, columns: nat) -> Seq<Op> {
    seq![Op::Erase { x: 172, y: 18, width: 130, height: 50 }] + weather_columns_plan(
        hourly.rain,
        hourly.cloud_cover,
        hourly.uv_index,
        hourly.temperature_2_m,
        columns,
    )
}

/// The forecast table of a forecast.
pub open spec fn forecast_plan(hourly: Hourly) -> Seq<Op> {
    weather_data_plan(hourly.rain, hourly.cloud_cover, hourly.uv_index, hourly.temperature_2_m)
}

fn column_start(column: usize) -> (x_offset: i32)
    ensures
        x_offset == column_offset(column as nat),
        row_within_reach(x_offset),
{
    if column == 0 {
        20
    } else if column == 1 {
        50
    } else if column == 2 {
        80
    } else {
        110
    }
}

fn shortest(a: usize, b: usize) -> (least: usize)
    ensures
        least == if a <= b {
            a
        } else {
            b
        },
{
    if a <= b {
        a
    } else {
        b
    }
}

/// Counts the columns of the table that a forecast fills.
pub fn count_hours_shown(weather_data: &HourlyNew) -> (hours: usize)
    ensures
        hours == hours_shown(weather_data@),
        hours <= 4,
        (hours == 4) == forecast_complete(weather_data@),
{
    let rows = shortest(weather_data.rain.len(), weather_data.cloud_cover.len());
    let more = shortest(weather_data.uv_index.len(), weather_data.temperature_2_m.len());
    shortest(shortest(rows, more), 4)
}

/// Builds the plan that erases the forecast table and fills in the columns
/// that the forecast holds.
pub fn forecast_columns_ops(weather_data: &HourlyNew) -> (plan: Vec<DrawOp>)
    ensures
        plan.deep_view() == forecast_columns_plan(weather_data@, hours_shown(weather_data@)),
        all_fit(plan.deep_view()) == forecast_drawable(weather_data@, hours_shown(weather_data@)),
{
    let ghost hourly = weather_data@;
    let hours = count_hours_shown(weather_data);
    let mut plan: Vec<DrawOp> = vec![DrawOp::Erase { x: 172, y: 18, width: 130, height: 50 }];
    assert(plan.deep_view() =~= seq![Op::Erase { x: 172, y: 18, width: 130, height: 50 }]);
    let ghost head = plan.deep_view();
    assert(head + Seq::<Op>::empty() =~= head);
    let mut column: usize = 0;
    while column < hours
        invariant
            column <= hours,
            hours == hours_shown(hourly),
            hourly == weather_data@,
            all_fit(head),
            plan.deep_view() == head + weather_columns_plan(
                hourly.rain,
                hourly.cloud_cover,
                hourly.uv_index,
                hourly.temperature_2_m,
                column as nat,
            ),
            all_fit(plan.deep_view()) == forecast_drawable(hourly, column as nat),
        decreases hours - column,
    {
        let rain = weather_data.rain[column].as_str();
        let cloud = weather_data.cloud_cover[column].as_str();
        let uv = weather_data.uv_index[column].as_str();
        let temp = weather_data.temperature_2_m[column].as_str();
        assert(rain@ == hourly.rain[column as int]);
        assert(cloud@ == hourly.cloud_cover[column as int]);
        assert(uv@ == hourly.uv_index[column as int]);
        assert(temp@ == hourly.temperature_2_m[column as int]);
        let row = row_weather_ops(rain, cloud, uv, temp, column_start(column));
        let ghost before = weather_columns_plan(
            hourly.rain,
            hourly.cloud_cover,
            hourly.uv_index,
            hourly.temperature_2_m,
            column as nat,
        );
        assert(head + (before + row.deep_view()) =~= (head + before) + row.deep_view());
        plan = chained(plan, row);
        column = column + 1;
    }
    plan
}

/// Builds the plan of the forecast table, if the forecast holds the four hours
/// that the table shows.
pub fn weather_data_ops(weather_data: &HourlyNew) -> (outcome: Result<Vec<DrawOp>, DisplayError>)
    ensures
        forecast_complete(weather_data@) ==> outcome is Ok && outcome->Ok_0.deep_view()
            == forecast_plan(weather_data@) && all_fit(outcome->Ok_0.deep_view())
            == forecast_drawable(weather_data@, 4),
        !forecast_complete(weather_data@) ==> outcome == Err::<Vec<DrawOp>, DisplayError>(
            DisplayError::MissingData,
        ),
{
    if count_hours_shown(weather_data) < 4 {
        return Err(DisplayError::MissingData);
    }
    Ok(chained(forecast_columns_ops(weather_data), weather_separators_ops()))
}

/// Builds the plan of the forecast with nothing known yet.
pub fn default_weather_ops() -> (plan: Vec<DrawOp>)
    ensures
        plan.deep_view() == default_weather_plan(),
        all_fit(plan.deep_view()),
{
    proof {
        reveal_strlit("00.00");
        reveal_strlit("UV");
        reveal_strlit("0.0");
        reveal_strlit("100.0");
        reveal_strlit("10.0");
    }
    let first = vec![line_op(149, 70, 296, 70, 2), DrawOp::Stamp { icon: Icon::Sun, x: 155, y: 2 }];
    assert(first.deep_view() =~= seq![
        line(149, 70, 296, 70, 2),
        Op::Stamp { icon: Icon::Sun, x: 155, y: 2 },
    ]);
    let plan = chained(first, arrow_simple_ops(SimpleArrowDirection::Up, 178, 3));
    let second = vec![DrawOp::Stamp { icon: Icon::Sun, x: 225, y: 2 }];
    assert(second.deep_view() =~= seq![Op::Stamp { icon: Icon::Sun, x: 225, y: 2 }]);
    let plan = chained(plan, second);
    let plan = chained(plan, arrow_simple_ops(SimpleArrowDirection::Down, 248, 3));
    let third = vec![
        label_op("00.00", 190, 12, Font::Font6x10),
        label_op("00.00", 260, 12, Font::Font6x10),
        DrawOp::Stamp { icon: Icon::Raindrops, x: 155, y: 15 },
        DrawOp::Stamp { icon: Icon::Cloud, x: 155, y: 28 },
        label_op("UV", 160, 50, Font::Font6x10),
        DrawOp::Stamp { icon: Icon::Thermometer, x: 156, y: 52 },
    ];
    assert(third.deep_view() =~= seq![
        label("00.00"@, 190, 12, Font::Font6x10),
        label("00.00"@, 260, 12, Font::Font6x10),
        Op::Stamp { icon: Icon::Raindrops, x: 155, y: 15 },
        Op::Stamp { icon: Icon::Cloud, x: 155, y: 28 },
        label("UV"@, 160, 50, Font::Font6x10),
        Op::Stamp { icon: Icon::Thermometer, x: 156, y: 52 },
    ]);
    let plan = chained(plan, third);
    let plan = chained(plan, row_weather_ops("0.0", "100.0", "0.0", "10.0", 20));
    let plan = chained(plan, row_weather_ops("0.0", "100.0", "0.0", "10.0", 50));
    let plan = chained(plan, row_weather_ops("0.0", "100.0", "0.0", "10.0", 80));
    let plan = chained(plan, row_weather_ops("0.0", "100.0", "0.0", "10.0", 110));
    chained(plan, weather_separators_ops())
}

/// Builds the plan of the totals with nothing known yet.
pub fn default_total_ops() -> (plan: Vec<DrawOp>)
    ensures
        plan.deep_view() == default_total_plan(),
        all_fit(plan.deep_view()),
{
    let plan = vec![
        label_op("Total", 154, 80, Font::Font6x12),
        line_op(150, 86, 190, 86, 2),
        line_op(190, 86, 190, 70, 2),
        DrawOp::Stamp { icon: Icon::Sun, x: 180, y: 90 },
        label_op("00.00 kW", 205, 100, Font::Font9x15),
        DrawOp::Stamp { icon: Icon::House, x: 180, y: 110 },
        label_op("00.00 kW", 205, 120, Font::Font9x15),
    ];
    proof {
        reveal_strlit("Total");
        reveal_strlit("00.00 kW");
        assert(plan.deep_view() =~= default_total_plan());
    }
    plan
}

/// Builds the plan of the totals of the period.
pub fn total_ops(consumption: &str, generated: &str) -> (plan: Vec<DrawOp>)
    ensures
        plan.deep_view() == total_plan(consumption@, generated@),
        all_fit(plan.deep_view()) == (drawable(consumption@) && drawable(generated@)),
{
    let plan = vec![
        DrawOp::Erase { x: 205, y: 90, width: 45, height: 12 },
        DrawOp::Erase { x: 205, y: 110, width: 45, height: 12 },
        label_op(generated, 205, 100, Font::Font9x15),
        label_op(consumption, 205, 120, Font::Font9x15),
    ];
    proof {
        let spec = total_plan(consumption@, generated@);
        assert(plan.deep_view() =~= spec);
        assert(fits(spec[0]) && fits(spec[1]));
        assert(fits(spec[2]) == drawable(generated@));
        assert(fits(spec[3]) == drawable(consumption@));
    }
    plan
}

/// Builds the plan of the circles, their icons, the dividers and the units.
pub fn chrome_ops() -> (plan: Vec<DrawOp>)
    ensures
        plan.deep_view() == chrome_plan(),
        all_fit(plan.deep_view()),
{
    let plan = vec![
        DrawOp::Circle { x: 55, y: 2, diameter: 40, stroke: 2 },
        DrawOp::Circle { x: 55, y: 86, diameter: 40, stroke: 2 },
        DrawOp::Circle { x: 13, y: 44, diameter: 40, stroke: 2 },
        DrawOp::Circle { x: 97, y: 44, diameter: 40, stroke: 2 },
        DrawOp::Erase { x: 66, y: 0, width: 18, height: 15 },
        DrawOp::Erase { x: 66, y: 84, width: 18, height: 15 },
        DrawOp::Erase { x: 24, y: 42, width: 18, height: 15 },
        DrawOp::Erase { x: 108, y: 42, width: 18, height: 15 },
        DrawOp::Stamp { icon: Icon::House, x: 66, y: 0 },
        DrawOp::Stamp { icon: Icon::LightningBolt, x: 108, y: 43 },
        DrawOp::Stamp { icon: Icon::Battery, x: 66, y: 84 },
        line_op(78, 85, 71, 96, 1),
        DrawOp::Stamp { icon: Icon::Sun, x: 24, y: 42 },
        line_op(149, 0, 149, 128, 2),
        line_op(103, 0, 103, 20, 2),
        line_op(103, 20, 149, 20, 2),
        label_op("%", 71, 120, Font::Font9x15),
        label_op("kW", 70, 34, Font::Font6x10),
        label_op("kW", 27, 76, Font::Font6x10),
        label_op("kW", 112, 76, Font::Font6x10),
        label_op("%", 71, 120, Font::Font9x15),
    ];
    proof {
        reveal_strlit("%");
        reveal_strlit("kW");
        assert(plan.deep_view() =~= chrome_plan());
    }
    plan
}

/// Builds the plan of the whole picture with nothing known yet.
pub fn default_display_ops(font: Font) -> (plan: Vec<DrawOp>)
    ensures
        plan.deep_view() == default_display_plan(font),
        all_fit(plan.deep_view()),
{
    proof {
        reveal_strlit("0.00");
        reveal_strlit("-0.00");
        reveal_strlit("0:00PM");
    }
    let plan = chained(default_battery_percentage_ops(), chrome_ops());
    let plan = chained(plan, text_ops(font, "0.00", "-0.00", "0.00", "-0.00", "0:00PM"));
    let plan = chained(plan, default_weather_ops());
    chained(plan, default_total_ops())
}

} // verus!
