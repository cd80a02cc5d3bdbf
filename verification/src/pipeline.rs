//! The pipeline: connection lifecycle and update policy put together.
//!
//! A session is fed the events of the transport, one at a time, and answers
//! each with the renders to carry out. It asks for no input or output itself:
//! its owner connects, reads, draws the plans on the frame and flushes.

use crate::connection::bumped;
use crate::connection::exhausted;
use crate::connection::expected;
use crate::connection::initial;
use crate::connection::next;
use crate::connection::request_in;
use crate::connection::well_formed;
use crate::connection::ConnectionManager;
use crate::connection::ConnectionState;
use crate::connection::Lifecycle;
use crate::connection::Request;
use crate::connection::Signal;
use crate::layout::chained;
use crate::layout::connected_ops;
use crate::layout::connected_plan;
use crate::layout::default_display_ops;
use crate::layout::default_display_plan;
use crate::layout::label;
use crate::ops::all_fit;
use crate::ops::DrawOp;
use crate::ops::Op;
use crate::layout::clear_text_plan;
use crate::layout::default_battery_percentage_plan;
use crate::policy::all_drawable;
use crate::policy::decode_error_plan;
use crate::policy::message_render;
use crate::policy::panels_outcome;
use crate::policy::record_outcome;
use crate::policy::readout_plan;
use crate::policy::refresh_plan;
use crate::policy::refreshed;
use crate::policy::shows_record;
use crate::policy::decoded;
use crate::policy::message_renders;
use crate::policy::message_shown;
use crate::policy::on_message;
use crate::policy::DisplayedState;
use crate::policy::Flush;
use crate::policy::Incoming;
use crate::policy::Render;
use crate::policy::RenderView;
use crate::policy::READING_FONT;
use crate::text::counter_is_short;
use crate::text::decimal;
use crate::text::decimal_text;
use crate::text::joined;
use crate::types::NewUiStruct;
use crate::types::Text;
use vstd::prelude::*;
use vstd::string::StringExecFns;

verus! {

/// What a session is set up with.
#[derive(Debug, Clone, Copy, PartialEq, Eq, Structural)]
pub struct Config {
    /// How many handshakes may fail in a row before the session gives up.
    pub max_retries: u32,
    /// The time after which the panel is refreshed in full, in the unit of the
    /// clock that the events are stamped with.
    pub refresh_interval: u64,
}

impl Default for Config {
    /// Five retries, and a full refresh every two minutes of a clock of
    /// nanoseconds.
    fn default() -> (config: Config)
        ensures
            config == (Config { max_retries: 5, refresh_interval: 120_000_000_000 }),
    {
        Config { max_retries: 5, refresh_interval: 120_000_000_000 }
    }
}

/// What the transport reports.
#[derive(Debug, Clone)]
pub enum Event<'a> {
    /// An attempt begins.
    Start,
    /// The transport was opened and the handshake succeeded.
    HandshakeSucceeded,
    /// The transport could not be opened, or the handshake failed.
    HandshakeFailed,
    /// A text message was read and decoded, or found malformed.
    Message(Incoming<'a>),
    /// The peer closed the stream.
    Closed,
    /// Reading failed.
    ReadFailed,
}

/// What an event means to the connection lifecycle.
pub open spec fn signal_of(event: Event) -> Signal {
    match event {
        Event::Start => Signal::Start,
        Event::HandshakeSucceeded => Signal::HandshakeSucceeded,
        Event::HandshakeFailed => Signal::HandshakeFailed,
        Event::Message(_) => Signal::MessageRead,
        Event::Closed => Signal::StreamLost,
        Event::ReadFailed => Signal::StreamLost,
    }
}

/// What a session knows.
pub struct Pipeline {
    pub connection: Lifecycle,
    pub shown: DisplayedState,
    pub refresh_interval: u64,
}

/// The panel right after the whole picture was drawn at `now`.
pub open spec fn fresh(now: u64) -> DisplayedState {
    DisplayedState { last_full_refresh: now, panels_due: true }
}

/// A session before anything happened.
pub open spec fn opening(config: Config) -> Pipeline {
    Pipeline {
        connection: initial(config.max_retries),
        shown: fresh(0),
        refresh_interval: config.refresh_interval,
    }
}

/// The plan with which an attempt begins: a blank frame, then the whole
/// picture with nothing known yet.
pub open spec fn attempt_plan() -> Seq<Op> {
    seq![Op::Blank] + default_display_plan(READING_FONT)
}

/// The render with which an attempt begins; it clears the panel first.
pub open spec fn attempt_render() -> RenderView {
    RenderView { clear_panel: true, plan: attempt_plan(), flush: Flush::Full }
}

/// The render that says the feed is connected.
pub open spec fn connected_render() -> RenderView {
    RenderView { clear_panel: false, plan: connected_plan(), flush: Flush::Partial }
}

/// The text of the banner for a lost stream.
pub open spec fn retry_banner(retries: u64) -> Text {
    "Disconnected from Websocket! Retry: "@ + decimal(retries as nat)
}

/// The banner for a lost stream, on a blank frame.
pub open spec fn disconnected_plan(retries: u64) -> Seq<Op> {
    seq![Op::Blank, label(retry_banner(retries), 45, 40, READING_FONT)]
}

/// The render of the banner for a lost stream.
pub open spec fn disconnected_render(retries: u64) -> RenderView {
    RenderView { clear_panel: false, plan: disconnected_plan(retries), flush: Flush::Full }
}

/// The message that stays once the session has given up, on a blank frame.
pub open spec fn gave_up_plan() -> Seq<Op> {
    seq![
        Op::Blank,
        label("Disconnected from Websocket!"@, 60, 40, READING_FONT),
        label("Manual restart necessary"@, 60, 50, READING_FONT),
    ]
}

/// The render of the message that stays once the session has given up.
pub open spec fn gave_up_render() -> RenderView {
    RenderView { clear_panel: false, plan: gave_up_plan(), flush: Flush::Full }
}

/// The renders that answer an event. An event that the state does not expect
/// is answered with none.
pub open spec fn step_renders(p: Pipeline, event: Event, now: u64) -> Seq<RenderView> {
    if !expected(p.connection.state, signal_of(event)) {
        Seq::empty()
    } else {
        match event {
            Event::Start => seq![attempt_render()],
            Event::HandshakeSucceeded => seq![connected_render()],
            Event::HandshakeFailed => if exhausted(p.connection) {
                seq![gave_up_render()]
            } else {
                seq![attempt_render()]
            },
            Event::Message(message) => message_renders(
                p.shown,
                p.refresh_interval,
                now,
                decoded(message),
            ),
            Event::Closed => seq![disconnected_render(bumped(p.connection.retries))],
            Event::ReadFailed => seq![disconnected_render(bumped(p.connection.retries))],
        }
    }
}

/// What the panel shows after an event.
pub open spec fn step_shown(p: Pipeline, event: Event, now: u64) -> DisplayedState {
    if !expected(p.connection.state, signal_of(event)) {
        p.shown
    } else {
        match event {
            Event::Start => fresh(now),
            Event::HandshakeSucceeded => fresh(now),
            Event::HandshakeFailed => if exhausted(p.connection) {
                p.shown
            } else {
                fresh(now)
            },
            Event::Message(message) => message_shown(
                p.shown,
                p.refresh_interval,
                now,
                decoded(message),
            ),
            Event::Closed => p.shown,
            Event::ReadFailed => p.shown,
        }
    }
}

/// The session after an event.
pub open spec fn step(p: Pipeline, event: Event, now: u64) -> Pipeline {
    Pipeline {
        connection: next(p.connection, signal_of(event)),
        shown: step_shown(p, event, now),
        refresh_interval: p.refresh_interval,
    }
}

/// A message never moves the connection out of `Connected`, whether it was
/// decoded or not, and it counts as no retry. One that was not decoded is
/// answered with the banner, after the refresh if that is due.
pub proof fn message_keeps_the_connection(p: Pipeline, message: Incoming, now: u64)
    requires
        p.connection.state == ConnectionState::Connected,
    ensures
        step(p, Event::Message(message), now).connection.state == ConnectionState::Connected,
        step(p, Event::Message(message), now).connection.handshake_retries
            == p.connection.handshake_retries,
        step(p, Event::Message(message), now).connection.retries == p.connection.retries,
        step_renders(p, Event::Message(message), now).len() >= 1,
        decoded(message) is None ==> step_renders(p, Event::Message(message), now).last() == (
        RenderView { clear_panel: false, plan: decode_error_plan(), flush: Flush::Full }),
        decoded(message) is None ==> step(p, Event::Message(message), now).shown == refreshed(
            p.shown,
            p.refresh_interval,
            now,
        ),
{
}

/// The first record on a new connection draws the totals and the forecast,
/// whether or not it says that they are new, and leaves nothing due. A record
/// that breaks a rule of a zone is answered with the banner instead, and the
/// totals and the forecast stay due.
pub proof fn first_record_draws_the_panels(
    p: Pipeline,
    connected_at: u64,
    record: NewUiStruct,
    now: u64,
)
    requires
        p.connection.state == ConnectionState::Connecting,
    ensures
        ({
            let connected = step(p, Event::HandshakeSucceeded, connected_at);
            let message = Event::Message(Incoming::Record(record));
            let renders = step_renders(connected, message, now);
            let after = step(connected, message, now);
            &&& connected.connection.state == ConnectionState::Connected
            &&& connected.shown.panels_due
            &&& renders.len() >= 1
            &&& record_outcome(record@, true) is Ok ==> panels_outcome(record@) is Ok
                && renders.last() == (RenderView {
                clear_panel: false,
                plan: readout_plan(record@) + panels_outcome(record@)->Ok_0,
                flush: Flush::Partial,
            }) && !after.shown.panels_due
            &&& record_outcome(record@, true) is Err ==> renders.last() == (RenderView {
                clear_panel: false,
                plan: decode_error_plan(),
                flush: Flush::Full,
            }) && after.shown.panels_due
        }),
{
    let connected = step(p, Event::HandshakeSucceeded, connected_at);
    assert(connected.shown == fresh(connected_at));
    assert(refreshed(connected.shown, p.refresh_interval, now).panels_due);
}

/// A session that has given up answers every event with no render, stays as
/// it is, and asks for nothing but to halt.
pub proof fn gave_up_session_is_silent(p: Pipeline, event: Event, now: u64)
    requires
        p.connection.state == ConnectionState::GaveUp,
    ensures
        step(p, event, now) == p,
        step_renders(p, event, now).len() == 0,
        request_in(step(p, event, now).connection.state) == Request::Halt,
{
}

/// The message that stays is rendered by the event on which the session gives
/// up, alone and in a full refresh, and by no other event.
pub proof fn gave_up_message_is_rendered_on_giving_up(p: Pipeline, event: Event, now: u64)
    requires
        well_formed(p.connection),
    ensures
        p.connection.state != ConnectionState::GaveUp && step(p, event, now).connection.state
            == ConnectionState::GaveUp ==> step_renders(p, event, now) == seq![gave_up_render()],
        !(p.connection.state != ConnectionState::GaveUp && step(p, event, now).connection.state
            == ConnectionState::GaveUp) ==> forall|i: int|
            0 <= i < step_renders(p, event, now).len() ==> step_renders(p, event, now)[i].plan
                != gave_up_plan(),
{
    let renders = step_renders(p, event, now);
    assert(gave_up_plan().len() == 3);
    assert(gave_up_plan()[0] == Op::Blank);
    assert(attempt_plan().len() > 3) by {
        assert(default_battery_percentage_plan().len() == 3);
    }
    assert(connected_plan().len() == 3);
    assert(connected_plan()[0] != Op::Blank);
    assert(decode_error_plan()[0] == Op::Wipe);
    assert(clear_text_plan().len() == 6);
    assert(refresh_plan().len() > 3) by {
        assert(default_battery_percentage_plan().len() == 3);
    }
    if expected(p.connection.state, signal_of(event)) {
        match event {
            Event::Message(message) => {
                let fresh = refreshed(p.shown, p.refresh_interval, now);
                let render = message_render(fresh, decoded(message));
                assert(render.plan != gave_up_plan()) by {
                    if shows_record(fresh, decoded(message)) {
                        let record = decoded(message)->Some_0;
                        assert(readout_plan(record)[0] == clear_text_plan()[0]);
                        assert(render.plan[0] == clear_text_plan()[0]);
                    }
                }
            },
            Event::Closed => {
                assert(disconnected_plan(bumped(p.connection.retries)).len() == 2);
            },
            Event::ReadFailed => {
                assert(disconnected_plan(bumped(p.connection.retries)).len() == 2);
            },
            _ => {},
        }
    }
}

/// Builds the plan with which an attempt begins.
pub fn attempt_ops() -> (plan: Vec<DrawOp>)
    ensures
        plan.deep_view() == attempt_plan(),
        all_fit(plan.deep_view()),
{
    let blank = vec![DrawOp::Blank];
    assert(blank.deep_view() =~= seq![Op::Blank]);
    chained(blank, default_display_ops(READING_FONT))
}

/// Builds the banner for a lost stream.
pub fn disconnected_ops(retries: u64) -> (plan: Vec<DrawOp>)
    ensures
        plan.deep_view() == disconnected_plan(retries),
        all_fit(plan.deep_view()),
{
    let digits = decimal_text(retries);
    let text = joined("Disconnected from Websocket! Retry: ", digits.as_str());
    let plan = vec![DrawOp::Blank, DrawOp::Label { text, x: 45, y: 40, font: READING_FONT }];
    proof {
        reveal_strlit("Disconnected from Websocket! Retry: ");
        counter_is_short(retries);
        assert(plan.deep_view() =~= disconnected_plan(retries));
    }
    plan
}

/// Builds the message that stays once the session has given up.
pub fn gave_up_ops() -> (plan: Vec<DrawOp>)
    ensures
        plan.deep_view() == gave_up_plan(),
        all_fit(plan.deep_view()),
{
    let plan = vec![
        DrawOp::Blank,
        DrawOp::Label {
            text: String::from_str("Disconnected from Websocket!"),
            x: 60,
            y: 40,
            font: READING_FONT,
        },
        DrawOp::Label {
            text: String::from_str("Manual restart necessary"),
            x: 60,
            y: 50,
            font: READING_FONT,
        },
    ];
    proof {
        reveal_strlit("Disconnected from Websocket!");
        reveal_strlit("Manual restart necessary");
        assert(plan.deep_view() =~= gave_up_plan());
    }
    plan
}

fn single(clear_panel: bool, plan: Vec<DrawOp>, flush: Flush) -> (renders: Vec<Render>)
    ensures
        renders.deep_view() == seq![
            RenderView { clear_panel, plan: plan.deep_view(), flush },
        ],
{
    let renders = vec![Render { clear_panel, plan, flush }];
    assert(renders.deep_view() =~= seq![
        RenderView { clear_panel, plan: plan.deep_view(), flush },
    ]);
    renders
}

/// A session: the connection lifecycle, and what the panel shows.
#[derive(Debug, Clone, Copy)]
pub struct Session {
    connection: ConnectionManager,
    shown: DisplayedState,
    refresh_interval: u64,
}

impl View for Session {
    type V = Pipeline;

    closed spec fn view(&self) -> Pipeline {
        Pipeline {
            connection: self.connection@,
            shown: self.shown,
            refresh_interval: self.refresh_interval,
        }
    }
}

impl Session {
    /// A session that has not connected yet.
    pub fn new(config: Config) -> (session: Session)
        ensures
            session@ == opening(config),
    {
        Session {
            connection: ConnectionManager::new(config.max_retries),
            shown: DisplayedState { last_full_refresh: 0, panels_due: true },
            refresh_interval: config.refresh_interval,
        }
    }

    /// The state of the connection. The lifecycle is well formed at all times.
    pub fn state(&self) -> (state: ConnectionState)
        ensures
            state == self@.connection.state,
            well_formed(self@.connection),
    {
        self.connection.state()
    }

    /// The retries of either kind since the start.
    pub fn retries(&self) -> (count: u64)
        ensures
            count == self@.connection.retries,
    {
        self.connection.retries()
    }

    /// The handshakes that failed since a connection last carried a message.
    pub fn handshake_retries(&self) -> (count: u64)
        ensures
            count == self@.connection.handshake_retries,
    {
        self.connection.handshake_retries()
    }

    /// What the policy remembers of the panel.
    pub fn shown(&self) -> (shown: DisplayedState)
        ensures
            shown == self@.shown,
    {
        self.shown
    }

    /// What the owner of the transport is to do next.
    pub fn request(&self) -> (request: Request)
        ensures
            request == request_in(self@.connection.state),
    {
        self.connection.request()
    }

    /// Takes an event that happened at `now` and answers with the renders to
    /// carry out, in their order.
    pub fn handle(&mut self, event: &Event, now: u64) -> (renders: Vec<Render>)
        ensures
            final(self)@ == step(old(self)@, *event, now),
            renders.deep_view() == step_renders(old(self)@, *event, now),
            all_drawable(renders.deep_view()),
    {
        let state = self.connection.state();
        let ghost before = self.connection@;
        let mut renders: Vec<Render> = Vec::new();
        assert(renders.deep_view() =~= Seq::<RenderView>::empty());
        match event {
            Event::Start => {
                self.connection.signal(Signal::Start);
                if state == ConnectionState::Disconnected {
                    self.shown = DisplayedState { last_full_refresh: now, panels_due: true };
                    renders = single(true, attempt_ops(), Flush::Full);
                }
            },
            Event::HandshakeSucceeded => {
                self.connection.signal(Signal::HandshakeSucceeded);
                if state == ConnectionState::Connecting {
                    self.shown = DisplayedState { last_full_refresh: now, panels_due: true };
                    renders = single(false, connected_ops(), Flush::Partial);
                }
            },
            Event::HandshakeFailed => {
                self.connection.signal(Signal::HandshakeFailed);
                if state == ConnectionState::Connecting {
                    if self.connection.state() == ConnectionState::GaveUp {
                        renders = single(false, gave_up_ops(), Flush::Full);
                    } else {
                        self.shown = DisplayedState { last_full_refresh: now, panels_due: true };
                        renders = single(true, attempt_ops(), Flush::Full);
                    }
                }
            },
            Event::Message(message) => {
                self.connection.signal(Signal::MessageRead);
                if state == ConnectionState::Connected {
                    renders = on_message(&mut self.shown, self.refresh_interval, now, message);
                }
            },
            Event::Closed => {
                self.connection.signal(Signal::StreamLost);
                if state == ConnectionState::Connected {
                    renders = single(false, disconnected_ops(self.connection.retries()), Flush::Full);
                }
            },
            Event::ReadFailed => {
                self.connection.signal(Signal::StreamLost);
                if state == ConnectionState::Connected {
                    renders = single(false, disconnected_ops(self.connection.retries()), Flush::Full);
                }
            },
        }
        renders
    }
}

} // verus!
