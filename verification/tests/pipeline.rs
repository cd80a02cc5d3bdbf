use energy_panel::connection::ConnectionState;
use energy_panel::connection::Request;
use energy_panel::display::DisplayBoxed;
use energy_panel::layout::connected_ops;
use energy_panel::layout::default_display_ops;
use energy_panel::ops::DrawOp;
use energy_panel::ops::Font;
use energy_panel::pipeline::attempt_ops;
use energy_panel::pipeline::disconnected_ops;
use energy_panel::pipeline::gave_up_ops;
use energy_panel::pipeline::Config;
use energy_panel::pipeline::Event;
use energy_panel::pipeline::Session;
use energy_panel::policy::decode_error_ops;
use energy_panel::policy::readout_ops;
use energy_panel::policy::refresh_ops;
use energy_panel::policy::DecodeError;
use energy_panel::policy::DisplayedState;
use energy_panel::policy::Flush;
use energy_panel::policy::Incoming;
use energy_panel::policy::Render;
use energy_panel::types::DailyNew;
use energy_panel::types::HourlyNew;
use energy_panel::types::NewUiStruct;
use energy_panel::types::TotalDataNew;
use energy_panel::types::WeatherNew;

fn texts(values: &[&str]) -> Vec<String> {
    values.iter().map(|v| v.to_string()).collect()
}

fn record(house: &'static str, new: bool) -> NewUiStruct<'static> {
    NewUiStruct {
        ts: "9:15AM",
        stat_state: "ok",
        gui_bat_data_power: "1.50",
        gui_inverter_power: "2.70",
        gui_house_pow: house,
        gui_grid_pow: "-0.30",
        gui_bat_data_fuel_charge: "87",
        gui_charging_info: "0",
        gui_boosting_info: "0",
        weather: WeatherNew {
            hourly: HourlyNew {
                time: texts(&["00:00", "01:00", "02:00", "03:00"]),
                temperature_2_m: texts(&["9.5", "10.5", "11.5", "12.5"]),
                rain: texts(&["0.0", "0.1", "0.2", "0.3"]),
                showers: texts(&["0.0", "0.0", "0.0", "0.0"]),
                cloud_cover: texts(&["10", "20", "30", "100"]),
                uv_index: texts(&["1.0", "2.0", "3.0", "4.0"]),
                uv_index_clear_sky: texts(&["1.0", "2.0", "3.0", "4.0"]),
            },
            daily: DailyNew {
                time: texts(&["2024-05-01"]),
                sunset: texts(&["20:45"]),
                sunrise: texts(&["06:12"]),
            },
        },
        total_data: TotalDataNew { consumption: "12.34", generated: "5.6", new },
    }
}

fn malformed() -> Event<'static> {
    Event::Message(Incoming::Malformed(DecodeError {
        raw: "not json".to_string(),
        diagnostic: "expected value at line 1 column 1".to_string(),
    }))
}

fn attempt() -> Render {
    Render { clear_panel: true, plan: attempt_ops(), flush: Flush::Full }
}

fn banner() -> Render {
    Render { clear_panel: false, plan: decode_error_ops(), flush: Flush::Full }
}

fn gave_up() -> Render {
    Render { clear_panel: false, plan: gave_up_ops(), flush: Flush::Full }
}

fn label(text: &str, x: i32, y: i32) -> DrawOp {
    DrawOp::Label { text: text.to_string(), x, y, font: Font::Font6x10 }
}

fn connected_session() -> Session {
    let mut session = Session::new(Config { max_retries: 5, refresh_interval: 120 });
    session.handle(&Event::Start, 0);
    session.handle(&Event::HandshakeSucceeded, 1);
    session
}

#[test]
fn default_config_is_five_retries_and_two_minutes() {
    assert_eq!(Config::default(), Config { max_retries: 5, refresh_interval: 120_000_000_000 });
}

#[test]
fn session_starts_disconnected() {
    let session = Session::new(Config::default());
    assert_eq!(session.state(), ConnectionState::Disconnected);
    assert_eq!(session.request(), Request::Begin);
    assert_eq!(session.retries(), 0);
    assert_eq!(session.handshake_retries(), 0);
    assert_eq!(session.shown(), DisplayedState { last_full_refresh: 0, panels_due: true });
}

#[test]
fn attempt_begins_with_the_whole_picture_on_a_cleared_panel() {
    let mut session = Session::new(Config::default());
    let renders = session.handle(&Event::Start, 7);
    assert_eq!(renders, vec![attempt()]);
    let mut plan = vec![DrawOp::Blank];
    plan.extend(default_display_ops(Font::Font6x10));
    assert_eq!(attempt_ops(), plan);
    assert_eq!(session.state(), ConnectionState::Connecting);
    assert_eq!(session.request(), Request::Connect);
    assert_eq!(session.shown(), DisplayedState { last_full_refresh: 7, panels_due: true });
}

#[test]
fn successful_handshake_shows_the_tab() {
    let mut session = Session::new(Config::default());
    session.handle(&Event::Start, 7);
    let renders = session.handle(&Event::HandshakeSucceeded, 9);
    assert_eq!(
        renders,
        vec![Render { clear_panel: false, plan: connected_ops(), flush: Flush::Partial }]
    );
    assert_eq!(session.state(), ConnectionState::Connected);
    assert_eq!(session.request(), Request::Read);
    assert_eq!(session.shown(), DisplayedState { last_full_refresh: 9, panels_due: true });
}

#[test]
fn failed_handshake_begins_the_next_attempt() {
    let mut session = Session::new(Config::default());
    session.handle(&Event::Start, 0);
    let renders = session.handle(&Event::HandshakeFailed, 3);
    assert_eq!(renders, vec![attempt()]);
    assert_eq!(session.state(), ConnectionState::Connecting);
    assert_eq!(session.handshake_retries(), 1);
    assert_eq!(session.retries(), 1);
    assert_eq!(session.shown(), DisplayedState { last_full_refresh: 3, panels_due: true });
}

#[test]
fn six_failures_with_five_retries_give_up_and_say_so_once() {
    let mut session = Session::new(Config { max_retries: 5, refresh_interval: 120 });
    let mut renders = session.handle(&Event::Start, 0);
    for at in 1..=6 {
        assert_eq!(session.state(), ConnectionState::Connecting);
        assert_eq!(session.request(), Request::Connect);
        renders.extend(session.handle(&Event::HandshakeFailed, at));
    }
    assert_eq!(session.state(), ConnectionState::GaveUp);
    assert_eq!(session.request(), Request::Halt);
    assert_eq!(session.handshake_retries(), 6);
    let message = label("Manual restart necessary", 60, 50);
    let said = renders.iter().filter(|render| render.plan.contains(&message)).count();
    assert_eq!(said, 1);
    assert_eq!(renders.len(), 7);
    assert_eq!(renders[6], gave_up());
    assert_eq!(
        gave_up_ops(),
        vec![
            DrawOp::Blank,
            label("Disconnected from Websocket!", 60, 40),
            label("Manual restart necessary", 60, 50),
        ]
    );
    // whatever comes after is answered with nothing
    for event in [
        Event::Start,
        Event::HandshakeSucceeded,
        Event::HandshakeFailed,
        Event::Message(Incoming::Record(record("1.20", true))),
        malformed(),
        Event::Closed,
        Event::ReadFailed,
    ] {
        assert_eq!(session.handle(&event, 100), vec![]);
        assert_eq!(session.state(), ConnectionState::GaveUp);
        assert_eq!(session.request(), Request::Halt);
    }
}

#[test]
fn five_failures_with_five_retries_keep_trying() {
    let mut session = Session::new(Config { max_retries: 5, refresh_interval: 120 });
    session.handle(&Event::Start, 0);
    for at in 1..=5 {
        assert_eq!(session.handle(&Event::HandshakeFailed, at), vec![attempt()]);
    }
    assert_eq!(session.state(), ConnectionState::Connecting);
    let renders = session.handle(&Event::HandshakeSucceeded, 6);
    assert_eq!(renders.len(), 1);
    assert_eq!(session.state(), ConnectionState::Connected);
}

#[test]
fn first_record_after_connecting_draws_the_panels() {
    let mut session = connected_session();
    let renders = session.handle(&Event::Message(Incoming::Record(record("1.20", false))), 2);
    assert_eq!(renders.len(), 1);
    assert_eq!(renders[0].flush, Flush::Partial);
    assert!(renders[0].plan.len() > readout_ops(&record("1.20", false)).len());
    let renders = session.handle(&Event::Message(Incoming::Record(record("1.30", false))), 3);
    assert_eq!(
        renders,
        vec![Render {
            clear_panel: false,
            plan: readout_ops(&record("1.30", false)),
            flush: Flush::Partial
        }]
    );
}

#[test]
fn decode_error_between_two_records_keeps_the_connection() {
    let mut session = connected_session();
    let first = session.handle(&Event::Message(Incoming::Record(record("1.20", false))), 2);
    assert_eq!(session.state(), ConnectionState::Connected);
    let second = session.handle(&malformed(), 3);
    assert_eq!(session.state(), ConnectionState::Connected);
    let third = session.handle(&Event::Message(Incoming::Record(record("1.30", false))), 4);
    assert_eq!(session.state(), ConnectionState::Connected);
    assert_eq!(first.len(), 1);
    assert_eq!(&first[0].plan[..readout_ops(&record("1.20", false)).len()], &readout_ops(&record("1.20", false))[..]);
    assert_eq!(second, vec![banner()]);
    assert_eq!(
        third,
        vec![Render {
            clear_panel: false,
            plan: readout_ops(&record("1.30", false)),
            flush: Flush::Partial
        }]
    );
    assert_eq!(session.retries(), 0);
    assert_eq!(session.handshake_retries(), 0);
    assert_eq!(session.request(), Request::Read);
}

#[test]
fn lost_stream_shows_the_retry_on_a_blank_frame() {
    let mut session = connected_session();
    let renders = session.handle(&Event::ReadFailed, 50);
    assert_eq!(
        renders,
        vec![Render { clear_panel: false, plan: disconnected_ops(1), flush: Flush::Full }]
    );
    assert_eq!(
        disconnected_ops(1),
        vec![DrawOp::Blank, label("Disconnected from Websocket! Retry: 1", 45, 40)]
    );
    assert_eq!(session.state(), ConnectionState::Disconnected);
    assert_eq!(session.request(), Request::Begin);
    assert_eq!(session.handle(&Event::Start, 51), vec![attempt()]);
    session.handle(&Event::HandshakeSucceeded, 52);
    let renders = session.handle(&Event::Closed, 60);
    assert_eq!(
        renders,
        vec![Render { clear_panel: false, plan: disconnected_ops(2), flush: Flush::Full }]
    );
    assert_eq!(session.retries(), 2);
}

#[test]
fn retry_banner_counts_retries_of_either_kind() {
    let mut session = Session::new(Config::default());
    session.handle(&Event::Start, 0);
    session.handle(&Event::HandshakeFailed, 1);
    session.handle(&Event::HandshakeFailed, 2);
    session.handle(&Event::HandshakeSucceeded, 3);
    let renders = session.handle(&Event::Closed, 4);
    assert_eq!(renders[0].plan[1], label("Disconnected from Websocket! Retry: 3", 45, 40));
    assert_eq!(disconnected_ops(12)[1], label("Disconnected from Websocket! Retry: 12", 45, 40));
}

#[test]
fn handshake_count_survives_a_silent_connection_and_resets_after_a_message() {
    let mut session = Session::new(Config::default());
    session.handle(&Event::Start, 0);
    session.handle(&Event::HandshakeFailed, 1);
    session.handle(&Event::HandshakeSucceeded, 2);
    session.handle(&Event::Closed, 3);
    assert_eq!(session.handshake_retries(), 1);
    session.handle(&Event::Start, 4);
    session.handle(&Event::HandshakeSucceeded, 5);
    session.handle(&malformed(), 6);
    session.handle(&Event::ReadFailed, 7);
    assert_eq!(session.handshake_retries(), 0);
    assert_eq!(session.retries(), 3);
}

#[test]
fn refresh_falls_due_while_connected() {
    let mut session = connected_session();
    session.handle(&Event::Message(Incoming::Record(record("1.20", false))), 2);
    let renders = session.handle(&Event::Message(Incoming::Record(record("1.20", false))), 122);
    assert_eq!(renders.len(), 2);
    assert_eq!(renders[0], Render { clear_panel: false, plan: refresh_ops(), flush: Flush::Full });
    assert_eq!(session.shown(), DisplayedState { last_full_refresh: 122, panels_due: false });
}

#[test]
fn event_that_the_state_does_not_expect_is_ignored() {
    let mut session = Session::new(Config::default());
    for event in [
        Event::HandshakeSucceeded,
        Event::HandshakeFailed,
        Event::Message(Incoming::Record(record("1.20", true))),
        Event::Closed,
        Event::ReadFailed,
    ] {
        assert_eq!(session.handle(&event, 5), vec![]);
        assert_eq!(session.state(), ConnectionState::Disconnected);
        assert_eq!(session.shown(), DisplayedState { last_full_refresh: 0, panels_due: true });
    }
    let mut session = connected_session();
    assert_eq!(session.handle(&Event::Start, 5), vec![]);
    assert_eq!(session.handle(&Event::HandshakeFailed, 5), vec![]);
    assert_eq!(session.state(), ConnectionState::Connected);
    assert_eq!(session.retries(), 0);
}

#[test]
fn renders_of_a_session_draw_on_a_frame() {
    let mut display = DisplayBoxed::new();
    let mut session = Session::new(Config::default());
    let mut frames = Vec::new();
    let events = [
        (Event::Start, 0),
        (Event::HandshakeSucceeded, 1),
        (Event::Message(Incoming::Record(record("1.20", false))), 2),
        (malformed(), 3),
        (Event::Message(Incoming::Record(record("1.30", false))), 4),
        (Event::Closed, 5),
    ];
    for (event, at) in events.iter() {
        for render in session.handle(event, *at) {
            assert_eq!(display.apply_all(&render.plan), Ok(()));
            frames.push(display.buffer().to_vec());
        }
    }
    assert_eq!(frames.len(), 6);
    for pair in frames.windows(2) {
        assert_ne!(pair[0], pair[1]);
    }
}
