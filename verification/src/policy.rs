//! The update policy: which zones of the panel a message redraws.
//!
//! The policy is a function from what the panel shows and a message to the
//! renders to carry out and what the panel shows afterwards. A render is a plan
//! and the flush that follows it; nothing here touches a frame or the panel.

use crate::display::DisplayError;
use crate::layout::chained;
use crate::layout::clear_text_ops;
use crate::layout::clear_text_plan;
use crate::layout::connected_ops;
use crate::layout::connected_plan;
use crate::layout::indicator_plan;
use crate::layout::indicators_ops;
use crate::layout::indicators_plan;
use crate::layout::line;
use crate::layout::default_display_ops;
use crate::layout::default_display_plan;
use crate::layout::drawable;
use crate::layout::error_message_ops;
use crate::layout::error_message_plan;
use crate::layout::forecast_complete;
use crate::layout::forecast_drawable;
use crate::layout::forecast_plan;
use crate::layout::origin;
use crate::layout::sun_data_ops;
use crate::layout::sun_data_plan;
use crate::layout::text_ops;
use crate::layout::text_plan;
use crate::layout::total_ops;
use crate::layout::total_plan;
use crate::layout::weather_data_ops;
use crate::layout::ConnectionDirection;
use crate::layout::Indicator;
use crate::ops::all_fit;
use crate::ops::DrawOp;
use crate::ops::Font;
use crate::ops::Op;
use crate::text::contains_minus;
use crate::text::glyph_count;
use crate::text::has_minus;
use crate::text::is_negative;
use crate::text::joined;
use crate::text::same_text;
use crate::text::starts_with_minus;
use crate::types::NewUiStruct;
use crate::types::Telemetry;
use crate::types::Text;
use vstd::prelude::*;
use vstd::string::StringExecFns;

verus! {

/// The font of the readings and of the banners.
pub const READING_FONT: Font = Font::Font6x10;

/// How the panel takes over a frame.
#[derive(Debug, Clone, Copy, PartialEq, Eq, Structural)]
pub enum Flush {
    /// A full refresh: slow and flickering, it leaves no ghosts.
    Full,
    /// A partial refresh of what changed against the last frame.
    Partial,
}

/// A render: the panel is cleared first if asked, the plan is drawn on the
/// frame, and the frame is flushed to the panel.
#[derive(Debug, Clone, PartialEq, Eq)]
pub struct Render {
    pub clear_panel: bool,
    pub plan: Vec<DrawOp>,
    pub flush: Flush,
}

/// A render as the contracts see it.
pub struct RenderView {
    pub clear_panel: bool,
    pub plan: Seq<Op>,
    pub flush: Flush,
}

impl View for Render {
    type V = RenderView;

    open spec fn view(&self) -> RenderView {
        RenderView { clear_panel: self.clear_panel, plan: self.plan.deep_view(), flush: self.flush }
    }
}

impl DeepView for Render {
    type V = RenderView;

    open spec fn deep_view(&self) -> RenderView {
        self@
    }
}

/// Whether every plan of a list of renders can be drawn.
pub open spec fn all_drawable(renders: Seq<RenderView>) -> bool {
    forall|i: int| 0 <= i < renders.len() ==> all_fit(#[trigger] renders[i].plan)
}

/// What the policy remembers of the panel between two messages.
#[derive(Debug, Clone, Copy, PartialEq, Eq, Structural)]
pub struct DisplayedState {
    /// When the panel was last refreshed in full.
    pub last_full_refresh: u64,
    /// Whether the totals and the forecast still show their placeholders,
    /// because the picture was just drawn afresh.
    pub panels_due: bool,
}

/// A message that could not be decoded.
#[derive(Debug, Clone, PartialEq, Eq)]
pub struct DecodeError {
    /// The message as it arrived.
    pub raw: String,
    /// What the parser said of it.
    pub diagnostic: String,
}

/// The line that reports a message that could not be decoded.
pub open spec fn log_entry_text(error: DecodeError) -> Text {
    "An error occured: "@ + error.diagnostic@ + " Message: "@ + error.raw@
}

impl DecodeError {
    /// The line that reports the error, with the message as it arrived.
    pub fn log_entry(&self) -> (line: String)
        ensures
            line@ == log_entry_text(*self),
    {
        let line = joined("An error occured: ", self.diagnostic.as_str());
        let line = line.concat(" Message: ");
        line.concat(self.raw.as_str())
    }
}

/// A text message of the feed, after decoding.
#[derive(Debug, Clone)]
pub enum Incoming<'a> {
    Record(NewUiStruct<'a>),
    Malformed(DecodeError),
}

/// A message as the contracts see it: the record, if it was decoded.
pub open spec fn decoded(message: Incoming) -> Option<Telemetry> {
    match message {
        Incoming::Record(record) => Some(record@),
        Incoming::Malformed(_) => None,
    }
}

/// The two spellings of no flow.
pub open spec fn is_zero(power: Text) -> bool {
    power == "0.00"@ || power == "-0.00"@
}

/// The indicator of the household: always on, with its arrowhead at the
/// circle.
pub open spec fn house_indicator() -> Indicator {
    Indicator { connection: ConnectionDirection::Top(true), returning: false }
}

/// The indicator of a flow that is read with its sign: none without flow.
/// `negative_flows_out` says which sign means power that leaves the hub: a
/// reading of that sign draws `outward`, with its arrowhead at the circle; any
/// other draws `bare` with an arrowhead turned back to the hub.
pub open spec fn signed_indicator(
    power: Text,
    outward: ConnectionDirection,
    bare: ConnectionDirection,
    negative_flows_out: bool,
) -> Option<Indicator> {
    if is_zero(power) {
        None
    } else if is_negative(power) == negative_flows_out {
        Some(Indicator { connection: outward, returning: false })
    } else {
        Some(Indicator { connection: bare, returning: true })
    }
}

/// The indicator of the battery: none without flow, an arrowhead into the
/// battery while it charges, one back to the hub while it discharges.
pub open spec fn battery_indicator(power: Text) -> Option<Indicator> {
    signed_indicator(
        power,
        ConnectionDirection::Bottom(true),
        ConnectionDirection::Bottom(false),
        false,
    )
}

/// The indicator of the grid: none without flow, an arrowhead towards the grid
/// while power is exported, one back to the hub while it is imported.
pub open spec fn grid_indicator(power: Text) -> Option<Indicator> {
    signed_indicator(
        power,
        ConnectionDirection::Right(true),
        ConnectionDirection::Right(false),
        true,
    )
}

/// The indicator of the inverter: a bare line while it delivers power.
pub open spec fn inverter_indicator(power: Text) -> Option<Indicator> {
    if is_zero(power) || is_negative(power) {
        None
    } else {
        Some(Indicator { connection: ConnectionDirection::Left(false), returning: false })
    }
}

/// An indicator that may be absent, as a list.
pub open spec fn listed(indicator: Option<Indicator>) -> Seq<Indicator> {
    match indicator {
        Some(i) => seq![i],
        None => Seq::empty(),
    }
}

/// The indicators that a record shows: household, battery, grid, inverter.
pub open spec fn indicators(record: Telemetry) -> Seq<Indicator> {
    seq![house_indicator()] + listed(battery_indicator(record.gui_bat_data_power)) + listed(
        grid_indicator(record.gui_grid_pow),
    ) + listed(inverter_indicator(record.gui_inverter_power))
}

/// The reading of the battery: its charge, signed by the direction of its
/// power.
pub open spec fn battery_reading(record: Telemetry) -> Text {
    if has_minus(record.gui_bat_data_power) {
        "-"@ + record.gui_bat_data_fuel_charge
    } else {
        "+"@ + record.gui_bat_data_fuel_charge
    }
}

/// The reading of the grid: its power, always with a sign.
pub open spec fn grid_reading(record: Telemetry) -> Text {
    if is_negative(record.gui_grid_pow) {
        record.gui_grid_pow
    } else {
        "+"@ + record.gui_grid_pow
    }
}

/// The five readings of a record.
pub open spec fn readings_plan(record: Telemetry) -> Seq<Op> {
    text_plan(
        READING_FONT,
        record.gui_house_pow,
        battery_reading(record),
        record.gui_inverter_power,
        grid_reading(record),
        record.ts,
    )
}

/// Whether the five readings of a record are short enough to be drawn.
pub open spec fn readings_drawable(record: Telemetry) -> bool {
    drawable(record.gui_house_pow) && drawable(battery_reading(record)) && drawable(
        record.gui_inverter_power,
    ) && drawable(grid_reading(record)) && drawable(record.ts)
}

/// What every record redraws: the readings and the indicators.
pub open spec fn readout_plan(record: Telemetry) -> Seq<Op> {
    clear_text_plan() + readings_plan(record) + indicators_plan(indicators(record))
}

/// The totals, the sun times and the forecast of a record, or why they cannot
/// be shown; the first rule that the record breaks decides.
pub open spec fn panels_outcome(record: Telemetry) -> Result<Seq<Op>, DisplayError> {
    let totals = record.total_data;
    let daily = record.weather.daily;
    let hourly = record.weather.hourly;
    if totals.consumption.len() > 5 || totals.generated.len() > 5 {
        Err(DisplayError::InputTooLong)
    } else if daily.sunrise.len() == 0 || daily.sunset.len() == 0 {
        Err(DisplayError::ValueNotPresent)
    } else if daily.sunset[0].len() > 5 || daily.sunrise[0].len() > 5 {
        Err(DisplayError::InputTooLong)
    } else if !forecast_complete(hourly) {
        Err(DisplayError::MissingData)
    } else if !forecast_drawable(hourly, 4) {
        Err(DisplayError::OutOfReach)
    } else {
        Ok(
            total_plan(totals.consumption, totals.generated) + sun_data_plan(
                daily.sunrise[0],
                daily.sunset[0],
            ) + forecast_plan(hourly),
        )
    }
}

/// The plan of a record, with or without the totals and the forecast, or why
/// the record cannot be shown.
pub open spec fn record_outcome(record: Telemetry, panels: bool) -> Result<Seq<Op>, DisplayError> {
    if !readings_drawable(record) {
        Err(DisplayError::OutOfReach)
    } else if !panels {
        Ok(readout_plan(record))
    } else {
        match panels_outcome(record) {
            Ok(plan) => Ok(readout_plan(record) + plan),
            Err(error) => Err(error),
        }
    }
}

/// What a planning function returned, as the contracts see it.
pub open spec fn outcome_view(outcome: Result<Vec<DrawOp>, DisplayError>) -> Result<
    Seq<Op>,
    DisplayError,
> {
    match outcome {
        Ok(plan) => Ok(plan.deep_view()),
        Err(error) => Err(error),
    }
}

/// The plan of a full refresh: a blank frame, the whole picture, and the tab
/// that says the feed is connected.
pub open spec fn refresh_plan() -> Seq<Op> {
    seq![Op::Blank] + default_display_plan(READING_FONT) + connected_plan()
}

/// The plan of the banner for a message that cannot be shown.
pub open spec fn decode_error_plan() -> Seq<Op> {
    seq![Op::Wipe] + error_message_plan("Error decoding message!"@, READING_FONT)
}

/// A full refresh is due once more than `interval` has passed since the last.
pub open spec fn refresh_due(shown: DisplayedState, interval: u64, now: u64) -> bool {
    now > shown.last_full_refresh && now - shown.last_full_refresh > interval
}

/// What the panel shows once a due refresh was made.
pub open spec fn refreshed(shown: DisplayedState, interval: u64, now: u64) -> DisplayedState {
    if refresh_due(shown, interval, now) {
        DisplayedState { last_full_refresh: now, panels_due: true }
    } else {
        shown
    }
}

/// The renders of a due refresh.
pub open spec fn refresh_renders(shown: DisplayedState, interval: u64, now: u64) -> Seq<
    RenderView,
> {
    if refresh_due(shown, interval, now) {
        seq![RenderView { clear_panel: false, plan: refresh_plan(), flush: Flush::Full }]
    } else {
        Seq::empty()
    }
}

/// Whether a message redraws the totals and the forecast: the record says
/// that they are new, or the picture was just drawn afresh.
pub open spec fn panels_wanted(shown: DisplayedState, record: Telemetry) -> bool {
    record.total_data.new || shown.panels_due
}

/// Whether a message is shown as a record: it was decoded, and the record
/// breaks no rule of the zones that it redraws.
pub open spec fn shows_record(shown: DisplayedState, message: Option<Telemetry>) -> bool {
    match message {
        Some(record) => record_outcome(record, panels_wanted(shown, record)) is Ok,
        None => false,
    }
}

/// The render of a message on a panel that needs no refresh: the record in a
/// partial refresh, or the banner in a full one.
pub open spec fn message_render(shown: DisplayedState, message: Option<Telemetry>) -> RenderView {
    if shows_record(shown, message) {
        let record = message->Some_0;
        RenderView {
            clear_panel: false,
            plan: record_outcome(record, panels_wanted(shown, record))->Ok_0,
            flush: Flush::Partial,
        }
    } else {
        RenderView { clear_panel: false, plan: decode_error_plan(), flush: Flush::Full }
    }
}

/// The renders of a message: the refresh if it is due, then the message.
pub open spec fn message_renders(
    shown: DisplayedState,
    interval: u64,
    now: u64,
    message: Option<Telemetry>,
) -> Seq<RenderView> {
    refresh_renders(shown, interval, now).push(
        message_render(refreshed(shown, interval, now), message),
    )
}

/// What the panel shows after a message: a record that was shown leaves no
/// panel due; a message that was not leaves things as the refresh left them.
pub open spec fn message_shown(
    shown: DisplayedState,
    interval: u64,
    now: u64,
    message: Option<Telemetry>,
) -> DisplayedState {
    let fresh = refreshed(shown, interval, now);
    if shows_record(fresh, message) {
        DisplayedState { last_full_refresh: fresh.last_full_refresh, panels_due: false }
    } else {
        fresh
    }
}

/// A message of the feed with the time at which it arrived.
pub struct Arrival {
    /// The record, if the message was decoded.
    pub message: Option<Telemetry>,
    pub at: u64,
}

/// Whether a message makes the policy refresh the panel in full.
pub open spec fn refreshes_at(shown: DisplayedState, interval: u64, arrival: Arrival) -> bool {
    refresh_due(shown, interval, arrival.at)
}

/// Whether a message makes the policy draw the totals and the forecast.
pub open spec fn draws_panels_at(shown: DisplayedState, interval: u64, arrival: Arrival) -> bool {
    let fresh = refreshed(shown, interval, arrival.at);
    shows_record(fresh, arrival.message) && panels_wanted(fresh, arrival.message->Some_0)
}

/// What the panel shows after a run of messages.
pub open spec fn shown_after(
    shown: DisplayedState,
    interval: u64,
    feed: Seq<Arrival>,
) -> DisplayedState
    decreases feed.len(),
{
    if feed.len() == 0 {
        shown
    } else {
        message_shown(
            shown_after(shown, interval, feed.drop_last()),
            interval,
            feed.last().at,
            feed.last().message,
        )
    }
}

/// How often a run of messages makes the policy refresh the panel in full.
pub open spec fn refreshes(shown: DisplayedState, interval: u64, feed: Seq<Arrival>) -> nat
    decreases feed.len(),
{
    if feed.len() == 0 {
        0
    } else {
        let before = shown_after(shown, interval, feed.drop_last());
        refreshes(shown, interval, feed.drop_last()) + if refreshes_at(
            before,
            interval,
            feed.last(),
        ) {
            1nat
        } else {
            0nat
        }
    }
}

/// How often a run of messages makes the policy draw the totals and the
/// forecast.
pub open spec fn panel_draws(shown: DisplayedState, interval: u64, feed: Seq<Arrival>) -> nat
    decreases feed.len(),
{
    if feed.len() == 0 {
        0
    } else {
        let before = shown_after(shown, interval, feed.drop_last());
        panel_draws(shown, interval, feed.drop_last()) + if draws_panels_at(
            before,
            interval,
            feed.last(),
        ) {
            1nat
        } else {
            0nat
        }
    }
}

/// Whether the messages of a run arrive in the order of their times.
pub open spec fn in_order(feed: Seq<Arrival>) -> bool {
    forall|i: int, j: int| 0 <= i <= j < feed.len() ==> feed[i].at <= feed[j].at
}

/// Whether a run of messages lasts no longer than `interval`, from its first
/// message on.
pub open spec fn within(feed: Seq<Arrival>, interval: u64) -> bool {
    forall|i: int| 0 <= i < feed.len() ==> #[trigger] feed[i].at - feed[0].at <= interval
}

/// Whether no record of a run says that its totals are new.
pub open spec fn nothing_new(feed: Seq<Arrival>) -> bool {
    forall|i: int|
        0 <= i < feed.len() && (#[trigger] feed[i]).message is Some
            ==> !feed[i].message->Some_0.total_data.new
}

/// Where the readings of a record are drawn depends on the numbers of their
/// glyphs alone: two records whose readings are as long, zone by zone, have
/// them at the same points.
pub proof fn readings_placed_by_glyph_count(a: Telemetry, b: Telemetry)
    requires
        a.gui_house_pow.len() == b.gui_house_pow.len(),
        battery_reading(a).len() == battery_reading(b).len(),
        a.gui_inverter_power.len() == b.gui_inverter_power.len(),
        grid_reading(a).len() == grid_reading(b).len(),
        a.ts.len() == b.ts.len(),
    ensures
        readings_plan(a).len() == 5,
        readings_plan(b).len() == 5,
        forall|i: int|
            0 <= i < 5 ==> origin(#[trigger] readings_plan(a)[i]) == origin(readings_plan(b)[i]),
{
}

/// Which indicator a reading draws depends on two things alone: whether the
/// reading is negative, and whether it spells no flow.
pub proof fn indicator_by_sign_and_zero(a: Text, b: Text)
    requires
        is_negative(a) == is_negative(b),
        is_zero(a) == is_zero(b),
    ensures
        battery_indicator(a) == battery_indicator(b),
        grid_indicator(a) == grid_indicator(b),
        inverter_indicator(a) == inverter_indicator(b),
{
}

/// A reading that spells no flow draws no indicator, with or without a minus
/// sign in front.
pub proof fn no_flow_draws_no_indicator(power: Text)
    requires
        is_zero(power),
    ensures
        battery_indicator(power) is None,
        grid_indicator(power) is None,
        inverter_indicator(power) is None,
        listed(grid_indicator(power)).len() == 0,
{
}

/// Power that flows through the grid connection draws its line with an
/// arrowhead: at the circle for export, turned back to the hub for import. The
/// two plans differ.
pub proof fn grid_flow_draws_an_arrowhead(power: Text)
    requires
        !is_zero(power),
    ensures
        grid_indicator(power) is Some,
        is_negative(power) ==> indicator_plan(grid_indicator(power)->Some_0) == seq![
            line(74, 64, 94, 64, 2),
            line(94, 63, 87, 56, 1),
            line(94, 64, 87, 71, 1),
        ],
        !is_negative(power) ==> indicator_plan(grid_indicator(power)->Some_0) == seq![
            line(74, 64, 94, 64, 2),
            line(87, 63, 94, 56, 1),
            line(87, 64, 94, 71, 1),
        ],
{
    let plan = indicator_plan(grid_indicator(power)->Some_0);
    if is_negative(power) {
        assert(plan =~= seq![
            line(74, 64, 94, 64, 2),
            line(94, 63, 87, 56, 1),
            line(94, 64, 87, 71, 1),
        ]);
    } else {
        assert(plan =~= seq![
            line(74, 64, 94, 64, 2),
            line(87, 63, 94, 56, 1),
            line(87, 64, 94, 71, 1),
        ]);
    }
}

/// A record that is shown while nothing is due and nothing is new redraws the
/// readings and the connections, and no other zone.
pub proof fn steady_record_redraws_the_readout_only(
    shown: DisplayedState,
    interval: u64,
    now: u64,
    record: Telemetry,
)
    requires
        !refresh_due(shown, interval, now),
        !shown.panels_due,
        !record.total_data.new,
        readings_drawable(record),
    ensures
        message_renders(shown, interval, now, Some(record)) == seq![
            RenderView { clear_panel: false, plan: readout_plan(record), flush: Flush::Partial },
        ],
        message_shown(shown, interval, now, Some(record)) == shown,
{
    assert(refresh_renders(shown, interval, now).push(
        message_render(refreshed(shown, interval, now), Some(record)),
    ) =~= seq![
        RenderView { clear_panel: false, plan: readout_plan(record), flush: Flush::Partial },
    ]);
}

/// The same message twice gives the same renders twice, as long as no refresh
/// falls due and the first did not have to catch up on the totals and the
/// forecast.
pub proof fn same_message_same_renders(
    shown: DisplayedState,
    interval: u64,
    first: u64,
    second: u64,
    message: Option<Telemetry>,
)
    requires
        !refresh_due(shown, interval, first),
        !refresh_due(shown, interval, second),
        message is Some && shown.panels_due ==> message->Some_0.total_data.new,
    ensures
        message_renders(message_shown(shown, interval, first, message), interval, second, message)
            == message_renders(shown, interval, first, message),
{
    let after = message_shown(shown, interval, first, message);
    assert(after.last_full_refresh == shown.last_full_refresh);
    assert(!refresh_due(after, interval, second));
    if message is Some {
        let record = message->Some_0;
        assert(panels_wanted(after, record) == panels_wanted(shown, record));
    }
}

/// The totals and the forecast are part of a record's plan if and only if the
/// record says that they are new or the picture was just drawn afresh. They
/// follow the readout, and they are never empty.
pub proof fn panels_drawn_iff_wanted(shown: DisplayedState, record: Telemetry)
    requires
        shows_record(shown, Some(record)),
    ensures
        panels_wanted(shown, record) ==> panels_outcome(record) is Ok && message_render(
            shown,
            Some(record),
        ).plan == readout_plan(record) + panels_outcome(record)->Ok_0,
        !panels_wanted(shown, record) ==> message_render(shown, Some(record)).plan == readout_plan(
            record,
        ),
        panels_wanted(shown, record) <==> message_render(shown, Some(record)).plan.len()
            > readout_plan(record).len(),
{
    if panels_wanted(shown, record) {
        let totals = record.total_data;
        assert(total_plan(totals.consumption, totals.generated).len() == 4);
    }
}

/// While no refresh falls due and no record says that its totals are new, the
/// totals and the forecast are drawn at most once: by the first record that is
/// shown after the picture was drawn afresh, and not at all if they were not
/// due.
pub proof fn panels_drawn_at_most_once(shown: DisplayedState, interval: u64, feed: Seq<Arrival>)
    requires
        nothing_new(feed),
        refreshes(shown, interval, feed) == 0,
    ensures
        panel_draws(shown, interval, feed) <= 1,
        !shown.panels_due ==> panel_draws(shown, interval, feed) == 0,
        panel_draws(shown, interval, feed) == 1 ==> !shown_after(shown, interval, feed).panels_due,
        shown_after(shown, interval, feed).panels_due ==> panel_draws(shown, interval, feed) == 0,
        shown_after(shown, interval, feed).panels_due ==> shown.panels_due,
    decreases feed.len(),
{
    if feed.len() > 0 {
        let rest = feed.drop_last();
        assert forall|i: int|
            0 <= i < rest.len() && (#[trigger] rest[i]).message is Some
                implies !rest[i].message->Some_0.total_data.new by {
            assert(rest[i] == feed[i]);
        }
        panels_drawn_at_most_once(shown, interval, rest);
        let last = feed.last();
        assert(last == feed[feed.len() - 1]);
    }
}

/// A run of messages that arrive in order and last no longer than the interval
/// makes the policy refresh the panel at most once, however many they are; and
/// exactly once if a refresh is due when the first arrives.
pub proof fn one_refresh_in_a_burst(shown: DisplayedState, interval: u64, feed: Seq<Arrival>)
    requires
        feed.len() > 0,
        in_order(feed),
        within(feed, interval),
    ensures
        refreshes(shown, interval, feed) <= 1,
        refresh_due(shown, interval, feed[0].at) ==> refreshes(shown, interval, feed) == 1,
        refreshes(shown, interval, feed) == 1 ==> shown_after(
            shown,
            interval,
            feed,
        ).last_full_refresh >= feed[0].at,
        refreshes(shown, interval, feed) == 0 ==> shown_after(
            shown,
            interval,
            feed,
        ).last_full_refresh == shown.last_full_refresh && !refresh_due(
            shown,
            interval,
            feed[0].at,
        ),
    decreases feed.len(),
{
    let rest = feed.drop_last();
    let last = feed.last();
    assert(last == feed[feed.len() - 1]);
    if rest.len() == 0 {
        assert(refreshes(shown, interval, rest) == 0);
        assert(shown_after(shown, interval, rest) == shown);
    } else {
        assert(rest[0] == feed[0]);
        assert forall|i: int, j: int| 0 <= i <= j < rest.len() implies rest[i].at <= rest[j].at by {
            assert(rest[i] == feed[i]);
            assert(rest[j] == feed[j]);
        }
        assert forall|i: int| 0 <= i < rest.len() implies #[trigger] rest[i].at - rest[0].at
            <= interval by {
            assert(rest[i] == feed[i]);
        }
        one_refresh_in_a_burst(shown, interval, rest);
        let before = shown_after(shown, interval, rest);
        assert(feed[0].at <= last.at);
        assert(last.at - feed[0].at <= interval);
    }
}

/// Once the panel was refreshed, no refresh falls due for the length of the
/// interval.
pub proof fn no_refresh_within_the_interval(
    shown: DisplayedState,
    interval: u64,
    now: u64,
    later: u64,
    message: Option<Telemetry>,
)
    requires
        refresh_due(shown, interval, now),
        now <= later,
        later - now <= interval,
    ensures
        message_shown(shown, interval, now, message).last_full_refresh == now,
        !refresh_due(message_shown(shown, interval, now, message), interval, later),
{
}

fn is_zero_reading(power: &str) -> (zero: bool)
    ensures
        zero == is_zero(power@),
{
    same_text(power, "0.00") || same_text(power, "-0.00")
}

fn signed(
    power: &str,
    outward: ConnectionDirection,
    bare: ConnectionDirection,
    negative_flows_out: bool,
) -> (indicator: Option<Indicator>)
    ensures
        indicator == signed_indicator(power@, outward, bare, negative_flows_out),
{
    if is_zero_reading(power) {
        None
    } else if starts_with_minus(power) == negative_flows_out {
        Some(Indicator { connection: outward, returning: false })
    } else {
        Some(Indicator { connection: bare, returning: true })
    }
}

/// The indicators that a record shows.
pub fn indicators_of(record: &NewUiStruct) -> (shown: Vec<Indicator>)
    ensures
        shown@ == indicators(record@),
{
    let mut shown: Vec<Indicator> = vec![
        Indicator { connection: ConnectionDirection::Top(true), returning: false },
    ];
    let battery = signed(
        record.gui_bat_data_power,
        ConnectionDirection::Bottom(true),
        ConnectionDirection::Bottom(false),
        false,
    );
    if let Some(indicator) = battery {
        shown.push(indicator);
    }
    let grid = signed(
        record.gui_grid_pow,
        ConnectionDirection::Right(true),
        ConnectionDirection::Right(false),
        true,
    );
    if let Some(indicator) = grid {
        shown.push(indicator);
    }
    let inverter = record.gui_inverter_power;
    if !is_zero_reading(inverter) && !starts_with_minus(inverter) {
        shown.push(Indicator { connection: ConnectionDirection::Left(false), returning: false });
    }
    assert(shown@ =~= indicators(record@));
    shown
}

fn battery_text(record: &NewUiStruct) -> (text: String)
    ensures
        text@ == battery_reading(record@),
{
    if contains_minus(record.gui_bat_data_power) {
        joined("-", record.gui_bat_data_fuel_charge)
    } else {
        joined("+", record.gui_bat_data_fuel_charge)
    }
}

fn grid_text(record: &NewUiStruct) -> (text: String)
    ensures
        text@ == grid_reading(record@),
{
    if starts_with_minus(record.gui_grid_pow) {
        String::from_str(record.gui_grid_pow)
    } else {
        joined("+", record.gui_grid_pow)
    }
}

/// Builds what every record redraws.
pub fn readout_ops(record: &NewUiStruct) -> (plan: Vec<DrawOp>)
    ensures
        plan.deep_view() == readout_plan(record@),
        all_fit(plan.deep_view()) == readings_drawable(record@),
{
    let battery = battery_text(record);
    let grid = grid_text(record);
    let readings = text_ops(
        READING_FONT,
        record.gui_house_pow,
        battery.as_str(),
        record.gui_inverter_power,
        grid.as_str(),
        record.ts,
    );
    let plan = chained(clear_text_ops(), readings);
    chained(plan, indicators_ops(&indicators_of(record)))
}

/// Builds the totals, the sun times and the forecast of a record, or says why
/// they cannot be shown.
pub fn panels_ops(record: &NewUiStruct) -> (outcome: Result<Vec<DrawOp>, DisplayError>)
    ensures
        outcome_view(outcome) == panels_outcome(record@),
        outcome is Ok ==> all_fit(outcome->Ok_0.deep_view()),
{
    let totals = &record.total_data;
    if glyph_count(totals.consumption) > 5 || glyph_count(totals.generated) > 5 {
        return Err(DisplayError::InputTooLong);
    }
    let daily = &record.weather.daily;
    if daily.sunrise.len() == 0 || daily.sunset.len() == 0 {
        return Err(DisplayError::ValueNotPresent);
    }
    let sunrise = daily.sunrise[0].as_str();
    let sunset = daily.sunset[0].as_str();
    assert(sunrise@ == record@.weather.daily.sunrise[0]);
    assert(sunset@ == record@.weather.daily.sunset[0]);
    if glyph_count(sunset) > 5 || glyph_count(sunrise) > 5 {
        return Err(DisplayError::InputTooLong);
    }
    let plan = chained(total_ops(totals.consumption, totals.generated), sun_data_ops(sunrise, sunset));
    match weather_data_ops(&record.weather.hourly) {
        Ok(forecast) => {
            let plan = chained(plan, forecast);
            if all_fit_exec(&plan) {
                Ok(plan)
            } else {
                Err(DisplayError::OutOfReach)
            }
        },
        Err(error) => Err(error),
    }
}

fn all_fit_exec(plan: &Vec<DrawOp>) -> (fit: bool)
    ensures
        fit == all_fit(plan.deep_view()),
{
    let ghost ops = plan.deep_view();
    let mut i: usize = 0;
    while i < plan.len()
        invariant
            i <= plan.len(),
            ops == plan.deep_view(),
            forall|j: int| 0 <= j < i ==> crate::ops::fits(#[trigger] ops[j]),
        decreases plan.len() - i,
    {
        assert(ops[i as int] == plan[i as int]@);
        if !plan[i].fits() {
            return false;
        }
        i = i + 1;
    }
    true
}

/// Plans a record, with or without the totals and the forecast, or says why the
/// record cannot be shown.
pub fn plan_record(record: &NewUiStruct, panels: bool) -> (outcome: Result<
    Vec<DrawOp>,
    DisplayError,
>)
    ensures
        outcome_view(outcome) == record_outcome(record@, panels),
        outcome is Ok ==> all_fit(outcome->Ok_0.deep_view()),
{
    let readout = readout_ops(record);
    if !all_fit_exec(&readout) {
        return Err(DisplayError::OutOfReach);
    }
    if !panels {
        return Ok(readout);
    }
    match panels_ops(record) {
        Ok(plan) => Ok(chained(readout, plan)),
        Err(error) => Err(error),
    }
}

/// Builds the plan of a full refresh.
pub fn refresh_ops() -> (plan: Vec<DrawOp>)
    ensures
        plan.deep_view() == refresh_plan(),
        all_fit(plan.deep_view()),
{
    let blank = vec![DrawOp::Blank];
    assert(blank.deep_view() =~= seq![Op::Blank]);
    let plan = chained(blank, default_display_ops(READING_FONT));
    chained(plan, connected_ops())
}

/// Builds the plan of the banner for a message that cannot be shown.
pub fn decode_error_ops() -> (plan: Vec<DrawOp>)
    ensures
        plan.deep_view() == decode_error_plan(),
        all_fit(plan.deep_view()),
{
    proof {
        reveal_strlit("Error decoding message!");
    }
    let wipe = vec![DrawOp::Wipe];
    assert(wipe.deep_view() =~= seq![Op::Wipe]);
    chained(wipe, error_message_ops("Error decoding message!", READING_FONT))
}

/// Whether a full refresh is due.
pub fn is_refresh_due(shown: &DisplayedState, interval: u64, now: u64) -> (due: bool)
    ensures
        due == refresh_due(*shown, interval, now),
{
    now > shown.last_full_refresh && now - shown.last_full_refresh > interval
}

/// Takes a text message of the feed: refreshes the panel in full if that is
/// due, then shows the record, or the banner if there is no record to show.
pub fn on_message(
    shown: &mut DisplayedState,
    interval: u64,
    now: u64,
    message: &Incoming,
) -> (renders: Vec<Render>)
    ensures
        renders.deep_view() == message_renders(*old(shown), interval, now, decoded(*message)),
        *final(shown) == message_shown(*old(shown), interval, now, decoded(*message)),
        all_drawable(renders.deep_view()),
{
    let mut renders: Vec<Render> = Vec::new();
    if is_refresh_due(shown, interval, now) {
        renders.push(Render { clear_panel: false, plan: refresh_ops(), flush: Flush::Full });
        shown.last_full_refresh = now;
        shown.panels_due = true;
    }
    assert(renders.deep_view() =~= refresh_renders(*old(shown), interval, now));
    assert(*shown == refreshed(*old(shown), interval, now));
    let planned = match message {
        Incoming::Record(record) => {
            let panels = record.total_data.new || shown.panels_due;
            match plan_record(record, panels) {
                Ok(plan) => Some(plan),
                Err(_) => None,
            }
        },
        Incoming::Malformed(_) => None,
    };
    match planned {
        Some(plan) => {
            renders.push(Render { clear_panel: false, plan, flush: Flush::Partial });
            shown.panels_due = false;
        },
        None => {
            renders.push(Render { clear_panel: false, plan: decode_error_ops(), flush: Flush::Full });
        },
    }
    assert(renders.deep_view() =~= message_renders(
        *old(shown),
        interval,
        now,
        decoded(*message),
    ));
    renders
}

} // verus!
