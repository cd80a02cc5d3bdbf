use energy_panel::display::DisplayError;
use energy_panel::layout::clear_text_ops;
use energy_panel::layout::connected_ops;
use energy_panel::layout::indicators_ops;
use energy_panel::layout::default_display_ops;
use energy_panel::layout::sun_data_ops;
use energy_panel::layout::text_ops;
use energy_panel::layout::total_ops;
use energy_panel::layout::weather_data_ops;
use energy_panel::layout::ConnectionDirection;
use energy_panel::layout::Indicator;
use energy_panel::ops::DrawOp;
use energy_panel::ops::Font;
use energy_panel::policy::indicators_of;
use energy_panel::policy::decode_error_ops;
use energy_panel::policy::is_refresh_due;
use energy_panel::policy::on_message;
use energy_panel::policy::panels_ops;
use energy_panel::policy::plan_record;
use energy_panel::policy::readout_ops;
use energy_panel::policy::refresh_ops;
use energy_panel::policy::DecodeError;
use energy_panel::policy::DisplayedState;
use energy_panel::policy::Flush;
use energy_panel::policy::Incoming;
use energy_panel::policy::Render;
use energy_panel::policy::READING_FONT;
use energy_panel::types::DailyNew;
use energy_panel::types::HourlyNew;
use energy_panel::types::NewUiStruct;
use energy_panel::types::TotalDataNew;
use energy_panel::types::WeatherNew;

fn texts(values: &[&str]) -> Vec<String> {
    values.iter().map(|v| v.to_string()).collect()
}

fn weather() -> WeatherNew {
    WeatherNew {
        hourly: HourlyNew {
            time: texts(&["00:00", "01:00", "02:00", "03:00"]),
            temperature_2_m: texts(&["9.5", "10.5", "11.5", "12.5"]),
            rain: texts(&["0.0", "0.1", "0.2", "0.3"]),
            showers: texts(&["0.0", "0.0", "0.0", "0.0"]),
            cloud_cover: texts(&["10", "20", "30", "100"]),
            uv_index: texts(&["1.0", "2.0", "3.0", "4.0"]),
            uv_index_clear_sky: texts(&["1.0", "2.0", "3.0", "4.0"]),
        },
        daily: DailyNew {
            time: texts(&["2024-05-01"]),
            sunset: texts(&["20:45"]),
            sunrise: texts(&["06:12"]),
        },
    }
}

fn record(battery: &'static str, inverter: &'static str, grid: &'static str) -> NewUiStruct<'static> {
    NewUiStruct {
        ts: "9:15AM",
        stat_state: "ok",
        gui_bat_data_power: battery,
        gui_inverter_power: inverter,
        gui_house_pow: "1.20",
        gui_grid_pow: grid,
        gui_bat_data_fuel_charge: "87",
        gui_charging_info: "0",
        gui_boosting_info: "0",
        weather: weather(),
        total_data: TotalDataNew { consumption: "12.34", generated: "5.6", new: false },
    }
}

fn plain() -> NewUiStruct<'static> {
    record("1.50", "2.70", "-0.30")
}

fn steady(at: u64) -> DisplayedState {
    DisplayedState { last_full_refresh: at, panels_due: false }
}

fn fresh(at: u64) -> DisplayedState {
    DisplayedState { last_full_refresh: at, panels_due: true }
}

fn banner() -> Render {
    Render { clear_panel: false, plan: decode_error_ops(), flush: Flush::Full }
}

fn refresh() -> Render {
    Render { clear_panel: false, plan: refresh_ops(), flush: Flush::Full }
}

fn malformed() -> Incoming<'static> {
    Incoming::Malformed(DecodeError {
        raw: "{\"ts\":".to_string(),
        diagnostic: "EOF while parsing a value at line 1 column 6".to_string(),
    })
}

fn panels_plan(record: &NewUiStruct) -> Vec<DrawOp> {
    let mut plan = total_ops(record.total_data.consumption, record.total_data.generated);
    plan.extend(sun_data_ops(&record.weather.daily.sunrise[0], &record.weather.daily.sunset[0]));
    plan.extend(weather_data_ops(&record.weather.hourly).unwrap());
    plan
}

fn out(connection: ConnectionDirection) -> Indicator {
    Indicator { connection, returning: false }
}

fn back(connection: ConnectionDirection) -> Indicator {
    Indicator { connection, returning: true }
}

fn house() -> Indicator {
    out(ConnectionDirection::Top(true))
}

#[test]
fn household_is_always_connected() {
    assert_eq!(indicators_of(&record("0.00", "0.00", "0.00")), vec![house()]);
}

#[test]
fn battery_indicator_follows_sign_and_zero() {
    assert_eq!(
        indicators_of(&record("1.50", "0.00", "0.00")),
        vec![house(), out(ConnectionDirection::Bottom(true))]
    );
    assert_eq!(
        indicators_of(&record("-1.50", "0.00", "0.00")),
        vec![house(), back(ConnectionDirection::Bottom(false))]
    );
    assert_eq!(indicators_of(&record("0.00", "0.00", "0.00")), vec![house()]);
    assert_eq!(indicators_of(&record("-0.00", "0.00", "0.00")), vec![house()]);
}

#[test]
fn grid_indicator_follows_sign_and_zero() {
    assert_eq!(
        indicators_of(&record("0.00", "0.00", "-0.30")),
        vec![house(), out(ConnectionDirection::Right(true))]
    );
    assert_eq!(
        indicators_of(&record("0.00", "0.00", "0.30")),
        vec![house(), back(ConnectionDirection::Right(false))]
    );
    assert_eq!(indicators_of(&record("0.00", "0.00", "0.00")), vec![house()]);
}

#[test]
fn grid_export_and_import_draw_arrowheads_of_their_own() {
    let line = |x0, y0, x1, y1, stroke| DrawOp::Line { x0, y0, x1, y1, stroke };
    let export = readout_ops(&record("0.00", "0.00", "-0.30"));
    assert_eq!(
        &export[export.len() - 3..],
        &[line(74, 64, 94, 64, 2), line(94, 63, 87, 56, 1), line(94, 64, 87, 71, 1)]
    );
    let import = readout_ops(&record("0.00", "0.00", "0.30"));
    assert_eq!(
        &import[import.len() - 3..],
        &[line(74, 64, 94, 64, 2), line(87, 63, 94, 56, 1), line(87, 64, 94, 71, 1)]
    );
}

#[test]
fn battery_charge_and_discharge_draw_arrowheads_of_their_own() {
    let line = |x0, y0, x1, y1, stroke| DrawOp::Line { x0, y0, x1, y1, stroke };
    let charge = readout_ops(&record("1.50", "0.00", "0.00"));
    assert_eq!(
        &charge[charge.len() - 3..],
        &[line(74, 64, 74, 82, 2), line(74, 82, 67, 75, 1), line(75, 82, 82, 75, 1)]
    );
    let discharge = readout_ops(&record("-1.50", "0.00", "0.00"));
    assert_eq!(
        &discharge[discharge.len() - 3..],
        &[line(74, 64, 74, 82, 2), line(74, 75, 67, 82, 1), line(75, 75, 82, 82, 1)]
    );
}

#[test]
fn grid_of_minus_zero_draws_no_connection() {
    let shown = indicators_of(&record("0.00", "0.00", "-0.00"));
    assert_eq!(shown, vec![house()]);
    let plan = readout_ops(&record("0.00", "0.00", "-0.00"));
    // neither the line from the hub to the right circle nor an arrowhead on it
    assert!(!plan.contains(&DrawOp::Line { x0: 74, y0: 64, x1: 94, y1: 64, stroke: 2 }));
    assert!(!plan.contains(&DrawOp::Line { x0: 94, y0: 63, x1: 87, y1: 56, stroke: 1 }));
    assert!(!plan.contains(&DrawOp::Line { x0: 94, y0: 64, x1: 87, y1: 71, stroke: 1 }));
    assert!(!plan.contains(&DrawOp::Line { x0: 87, y0: 63, x1: 94, y1: 56, stroke: 1 }));
    assert!(!plan.contains(&DrawOp::Line { x0: 87, y0: 64, x1: 94, y1: 71, stroke: 1 }));
    // the reading itself is still shown
    assert!(plan.contains(&DrawOp::Label {
        text: "-0.00".to_string(),
        x: 103,
        y: 65,
        font: READING_FONT
    }));
}

#[test]
fn inverter_indicator_needs_positive_power() {
    assert_eq!(
        indicators_of(&record("0.00", "2.70", "0.00")),
        vec![house(), out(ConnectionDirection::Left(false))]
    );
    assert_eq!(indicators_of(&record("0.00", "-2.70", "0.00")), vec![house()]);
    assert_eq!(indicators_of(&record("0.00", "0.00", "0.00")), vec![house()]);
    assert_eq!(indicators_of(&record("0.00", "-0.00", "0.00")), vec![house()]);
}

#[test]
fn indicators_come_in_a_fixed_order() {
    assert_eq!(
        indicators_of(&record("1.50", "2.70", "-0.30")),
        vec![
            house(),
            out(ConnectionDirection::Bottom(true)),
            out(ConnectionDirection::Right(true)),
            out(ConnectionDirection::Left(false)),
        ]
    );
}

#[test]
fn indicator_ignores_the_magnitude() {
    assert_eq!(
        indicators_of(&record("0.01", "9.99", "-7.00")),
        indicators_of(&record("55.5", "0.10", "-0.01"))
    );
    assert_eq!(
        indicators_of(&record("-0.01", "9.99", "7.00")),
        indicators_of(&record("-55.5", "0.10", "0.01"))
    );
}

#[test]
fn readout_ops_erases_writes_and_connects() {
    let r = plain();
    let mut expected = clear_text_ops();
    expected.extend(text_ops(Font::Font6x10, "1.20", "+87", "2.70", "-0.30", "9:15AM"));
    expected.extend(indicators_ops(&indicators_of(&r)));
    assert_eq!(readout_ops(&r), expected);
}

#[test]
fn battery_reading_is_signed_by_the_power() {
    let plan = readout_ops(&record("-1.50", "0.00", "0.00"));
    assert_eq!(
        plan[7],
        DrawOp::Label { text: "-87".to_string(), x: 60, y: 107, font: READING_FONT }
    );
    let plan = readout_ops(&record("1.50", "0.00", "0.00"));
    assert_eq!(
        plan[7],
        DrawOp::Label { text: "+87".to_string(), x: 60, y: 107, font: READING_FONT }
    );
    // a minus sign anywhere in the power counts
    let plan = readout_ops(&record("1.5-", "0.00", "0.00"));
    assert_eq!(
        plan[7],
        DrawOp::Label { text: "-87".to_string(), x: 60, y: 107, font: READING_FONT }
    );
}

#[test]
fn grid_reading_always_has_a_sign() {
    let plan = readout_ops(&record("0.00", "0.00", "0.30"));
    assert_eq!(
        plan[9],
        DrawOp::Label { text: "+0.30".to_string(), x: 103, y: 65, font: READING_FONT }
    );
    let plan = readout_ops(&record("0.00", "0.00", "-0.30"));
    assert_eq!(
        plan[9],
        DrawOp::Label { text: "-0.30".to_string(), x: 103, y: 65, font: READING_FONT }
    );
    let plan = readout_ops(&record("0.00", "0.00", "3"));
    assert_eq!(
        plan[9],
        DrawOp::Label { text: "+3".to_string(), x: 111, y: 65, font: READING_FONT }
    );
}

#[test]
fn panels_ops_draws_totals_sun_and_forecast() {
    let r = plain();
    assert_eq!(panels_ops(&r), Ok(panels_plan(&r)));
}

#[test]
fn panels_ops_reports_totals_that_are_too_long() {
    let mut r = plain();
    r.total_data.consumption = "123.45";
    assert_eq!(panels_ops(&r), Err(DisplayError::InputTooLong));
    let mut r = plain();
    r.total_data.generated = "123.45";
    assert_eq!(panels_ops(&r), Err(DisplayError::InputTooLong));
}

#[test]
fn panels_ops_reports_a_missing_sun_time() {
    let mut r = plain();
    r.weather.daily.sunrise = vec![];
    assert_eq!(panels_ops(&r), Err(DisplayError::ValueNotPresent));
    let mut r = plain();
    r.weather.daily.sunset = vec![];
    assert_eq!(panels_ops(&r), Err(DisplayError::ValueNotPresent));
}

#[test]
fn panels_ops_reports_sun_times_that_are_too_long() {
    let mut r = plain();
    r.weather.daily.sunrise = texts(&["06:12h"]);
    assert_eq!(panels_ops(&r), Err(DisplayError::InputTooLong));
    let mut r = plain();
    r.weather.daily.sunset = texts(&["20:45h"]);
    assert_eq!(panels_ops(&r), Err(DisplayError::InputTooLong));
}

#[test]
fn panels_ops_reports_missing_hours() {
    let mut r = plain();
    r.weather.hourly.rain = texts(&["0.0", "0.1", "0.2"]);
    assert_eq!(panels_ops(&r), Err(DisplayError::MissingData));
}

#[test]
fn panels_ops_reports_an_entry_out_of_reach() {
    let mut r = plain();
    r.weather.hourly.cloud_cover[2] = "1".repeat(0x400_0000 + 1);
    assert_eq!(panels_ops(&r), Err(DisplayError::OutOfReach));
}

#[test]
fn panels_ops_reports_the_first_rule_that_is_broken() {
    let mut r = plain();
    r.total_data.consumption = "123.45";
    r.weather.daily.sunrise = vec![];
    r.weather.hourly.rain = vec![];
    assert_eq!(panels_ops(&r), Err(DisplayError::InputTooLong));
    let mut r = plain();
    r.weather.daily.sunrise = vec![];
    r.weather.hourly.rain = vec![];
    assert_eq!(panels_ops(&r), Err(DisplayError::ValueNotPresent));
    let mut r = plain();
    r.weather.daily.sunset = texts(&["20:45h"]);
    r.weather.hourly.rain = vec![];
    assert_eq!(panels_ops(&r), Err(DisplayError::InputTooLong));
}

#[test]
fn plan_record_adds_the_panels_on_request() {
    let r = plain();
    assert_eq!(plan_record(&r, false), Ok(readout_ops(&r)));
    let mut both = readout_ops(&r);
    both.extend(panels_plan(&r));
    assert_eq!(plan_record(&r, true), Ok(both));
}

#[test]
fn plan_record_ignores_broken_panels_that_are_not_drawn() {
    let mut r = plain();
    r.weather.daily.sunrise = vec![];
    assert_eq!(plan_record(&r, false), Ok(readout_ops(&r)));
    assert_eq!(plan_record(&r, true), Err(DisplayError::ValueNotPresent));
}

#[test]
fn plan_record_refuses_a_reading_out_of_reach() {
    let long: &'static str = Box::leak("1".repeat(0x400_0000 + 1).into_boxed_str());
    let mut r = plain();
    r.ts = long;
    assert_eq!(plan_record(&r, false), Err(DisplayError::OutOfReach));
    assert_eq!(plan_record(&r, true), Err(DisplayError::OutOfReach));
    let longest = &long[1..];
    let mut r = plain();
    r.ts = longest;
    assert!(plan_record(&r, false).is_ok());
    let mut r = plain();
    r.gui_bat_data_fuel_charge = longest;
    // the sign makes it one glyph too many
    assert_eq!(plan_record(&r, false), Err(DisplayError::OutOfReach));
}

#[test]
fn plan_record_takes_readings_of_thousands_of_glyphs() {
    let long: &'static str = Box::leak("1".repeat(5000).into_boxed_str());
    let mut r = plain();
    r.gui_house_pow = long;
    r.weather.hourly.rain[0] = long.to_string();
    assert!(plan_record(&r, true).is_ok());
}

#[test]
fn refresh_ops_blanks_draws_and_says_connected() {
    let mut expected = vec![DrawOp::Blank];
    expected.extend(default_display_ops(Font::Font6x10));
    expected.extend(connected_ops());
    assert_eq!(refresh_ops(), expected);
}

#[test]
fn decode_error_ops_wipes_and_writes() {
    assert_eq!(
        decode_error_ops(),
        vec![
            DrawOp::Wipe,
            DrawOp::Label {
                text: "Error decoding message!".to_string(),
                x: 58,
                y: 100,
                font: Font::Font6x10
            },
        ]
    );
}

#[test]
fn refresh_is_due_after_more_than_the_interval() {
    assert!(!is_refresh_due(&steady(100), 120, 100));
    assert!(!is_refresh_due(&steady(100), 120, 219));
    assert!(!is_refresh_due(&steady(100), 120, 220));
    assert!(is_refresh_due(&steady(100), 120, 221));
    assert!(is_refresh_due(&steady(0), 0, 1));
    assert!(!is_refresh_due(&steady(0), 0, 0));
    assert!(is_refresh_due(&steady(0), 120, u64::MAX));
    assert!(!is_refresh_due(&steady(u64::MAX), 120, u64::MAX));
}

#[test]
fn refresh_is_not_due_when_the_clock_runs_backwards() {
    assert!(!is_refresh_due(&steady(500), 120, 0));
    assert!(!is_refresh_due(&steady(500), 0, 499));
}

#[test]
fn steady_record_is_a_partial_render_of_the_readout() {
    let mut shown = steady(100);
    let renders = on_message(&mut shown, 120, 150, &Incoming::Record(plain()));
    assert_eq!(
        renders,
        vec![Render { clear_panel: false, plan: readout_ops(&plain()), flush: Flush::Partial }]
    );
    assert_eq!(shown, steady(100));
}

#[test]
fn same_record_twice_gives_the_same_renders() {
    let mut shown = steady(100);
    let first = on_message(&mut shown, 120, 150, &Incoming::Record(plain()));
    let second = on_message(&mut shown, 120, 151, &Incoming::Record(plain()));
    assert_eq!(first, second);
    let mut r = plain();
    r.total_data.new = true;
    let mut shown = fresh(100);
    let first = on_message(&mut shown, 120, 150, &Incoming::Record(r.clone()));
    let second = on_message(&mut shown, 120, 151, &Incoming::Record(r));
    assert_eq!(first, second);
}

#[test]
fn panels_are_drawn_when_the_totals_are_new() {
    let mut r = plain();
    r.total_data.new = true;
    let mut shown = steady(100);
    let renders = on_message(&mut shown, 120, 150, &Incoming::Record(r.clone()));
    let mut plan = readout_ops(&r);
    plan.extend(panels_plan(&r));
    assert_eq!(renders, vec![Render { clear_panel: false, plan, flush: Flush::Partial }]);
    assert_eq!(shown, steady(100));
}

#[test]
fn panels_are_drawn_once_after_the_picture_was_drawn_afresh() {
    let r = plain();
    let mut shown = fresh(100);
    let mut with_panels = 0;
    for at in 101..111 {
        let renders = on_message(&mut shown, 120, at, &Incoming::Record(r.clone()));
        assert_eq!(renders.len(), 1);
        if renders[0].plan.len() > readout_ops(&r).len() {
            with_panels += 1;
            assert_eq!(at, 101);
        } else {
            assert_eq!(renders[0].plan, readout_ops(&r));
        }
    }
    assert_eq!(with_panels, 1);
    assert_eq!(shown, steady(100));
}

#[test]
fn panels_are_not_drawn_when_nothing_is_due_or_new() {
    let r = plain();
    let mut shown = steady(100);
    for at in 101..111 {
        let renders = on_message(&mut shown, 120, at, &Incoming::Record(r.clone()));
        assert_eq!(renders.len(), 1);
        assert_eq!(renders[0].plan, readout_ops(&r));
    }
}

#[test]
fn due_refresh_comes_before_the_record() {
    let r = plain();
    let mut shown = steady(100);
    let renders = on_message(&mut shown, 120, 221, &Incoming::Record(r.clone()));
    let mut plan = readout_ops(&r);
    plan.extend(panels_plan(&r));
    assert_eq!(
        renders,
        vec![refresh(), Render { clear_panel: false, plan, flush: Flush::Partial }]
    );
    assert_eq!(shown, steady(221));
}

#[test]
fn burst_within_one_interval_refreshes_once() {
    let r = plain();
    let mut shown = steady(0);
    let mut refreshes = 0;
    for at in 1000..1100 {
        let renders = on_message(&mut shown, 120, at, &Incoming::Record(r.clone()));
        refreshes += renders.iter().filter(|render| render.flush == Flush::Full).count();
    }
    assert_eq!(refreshes, 1);
    assert_eq!(shown, steady(1000));
}

#[test]
fn refresh_comes_once_per_interval() {
    let r = plain();
    let mut shown = steady(0);
    let mut at_which = Vec::new();
    for at in 0..500 {
        let renders = on_message(&mut shown, 120, at, &Incoming::Record(r.clone()));
        if renders.len() == 2 {
            assert_eq!(renders[0], refresh());
            at_which.push(at);
        }
    }
    assert_eq!(at_which, vec![121, 242, 363, 484]);
}

#[test]
fn malformed_message_is_a_full_render_of_the_banner() {
    let mut shown = steady(100);
    let renders = on_message(&mut shown, 120, 150, &malformed());
    assert_eq!(renders, vec![banner()]);
    assert_eq!(shown, steady(100));
    let mut shown = fresh(100);
    let renders = on_message(&mut shown, 120, 150, &malformed());
    assert_eq!(renders, vec![banner()]);
    assert_eq!(shown, fresh(100));
}

#[test]
fn malformed_message_does_not_hold_back_a_due_refresh() {
    let mut shown = steady(100);
    let renders = on_message(&mut shown, 120, 300, &malformed());
    assert_eq!(renders, vec![refresh(), banner()]);
    assert_eq!(shown, fresh(300));
}

#[test]
fn record_that_cannot_be_shown_gets_the_banner() {
    let mut r = plain();
    r.weather.daily.sunset = vec![];
    let mut shown = fresh(100);
    let renders = on_message(&mut shown, 120, 150, &Incoming::Record(r.clone()));
    assert_eq!(renders, vec![banner()]);
    assert_eq!(shown, fresh(100));
    // the same record is shown where the panels are not drawn
    let mut shown = steady(100);
    let renders = on_message(&mut shown, 120, 150, &Incoming::Record(r.clone()));
    assert_eq!(
        renders,
        vec![Render { clear_panel: false, plan: readout_ops(&r), flush: Flush::Partial }]
    );
}

#[test]
fn every_render_of_a_message_can_be_drawn() {
    let mut r = plain();
    r.total_data.new = true;
    let mut shown = steady(0);
    for render in on_message(&mut shown, 120, 500, &Incoming::Record(r)) {
        assert!(render.plan.iter().all(|op| op.fits()));
    }
}

#[test]
fn log_entry_holds_diagnostic_and_message() {
    let error = DecodeError { raw: "{}".to_string(), diagnostic: "missing field `ts`".to_string() };
    assert_eq!(error.log_entry(), "An error occured: missing field `ts` Message: {}");
}
