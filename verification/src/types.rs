//! The telemetry record: one decoded message of the energy monitor's feed.
//!
//! Every numeric reading travels as a decimal string, as the server formats it;
//! the record keeps those strings and borrows them from the message.

use vstd::prelude::*;

verus! {

/// Cumulative figures of the current accounting period.
#[derive(Debug, Clone)]
pub struct TotalDataNew<'a> {
    pub consumption: &'a str,
    pub generated: &'a str,
    /// Set when the figures changed since the last message.
    pub new: bool,
}

/// The daily block of the forecast; index 0 is today.
#[derive(Debug, Clone)]
pub struct DailyNew {
    pub time: Vec<String>,
    pub sunset: Vec<String>,
    pub sunrise: Vec<String>,
}

/// The hourly block of the forecast; the arrays run in parallel, one entry per hour.
#[derive(Debug, Clone)]
pub struct HourlyNew {
    pub time: Vec<String>,
    pub temperature_2_m: Vec<String>,
    pub rain: Vec<String>,
    pub showers: Vec<String>,
    pub cloud_cover: Vec<String>,
    pub uv_index: Vec<String>,
    pub uv_index_clear_sky: Vec<String>,
}

/// The weather snapshot carried by every record.
#[derive(Debug, Clone)]
pub struct WeatherNew {
    pub hourly: HourlyNew,
    pub daily: DailyNew,
}

/// One telemetry record.
#[derive(Debug, Clone)]
pub struct NewUiStruct<'a> {
    pub ts: &'a str,
    pub stat_state: &'a str,
    pub gui_bat_data_power: &'a str,
    pub gui_inverter_power: &'a str,
    pub gui_house_pow: &'a str,
    pub gui_grid_pow: &'a str,
    pub gui_bat_data_fuel_charge: &'a str,
    pub gui_charging_info: &'a str,
    pub gui_boosting_info: &'a str,
    pub weather: WeatherNew,
    pub total_data: TotalDataNew<'a>,
}

/// A piece of text as the contracts see it.
pub type Text = Seq<char>;

/// What a `TotalDataNew` holds.
pub struct Totals {
    pub consumption: Text,
    pub generated: Text,
    pub new: bool,
}

/// What a `DailyNew` holds.
pub struct Daily {
    pub time: Seq<Text>,
    pub sunset: Seq<Text>,
    pub sunrise: Seq<Text>,
}

/// What an `HourlyNew` holds.
pub struct Hourly {
    pub time: Seq<Text>,
    pub temperature_2_m: Seq<Text>,
    pub rain: Seq<Text>,
    pub showers: Seq<Text>,
    pub cloud_cover: Seq<Text>,
    pub uv_index: Seq<Text>,
    pub uv_index_clear_sky: Seq<Text>,
}

/// What a `WeatherNew` holds.
pub struct Weather {
    pub hourly: Hourly,
    pub daily: Daily,
}

/// What a `NewUiStruct` holds.
pub struct Telemetry {
    pub ts: Text,
    pub stat_state: Text,
    pub gui_bat_data_power: Text,
    pub gui_inverter_power: Text,
    pub gui_house_pow: Text,
    pub gui_grid_pow: Text,
    pub gui_bat_data_fuel_charge: Text,
    pub gui_charging_info: Text,
    pub gui_boosting_info: Text,
    pub weather: Weather,
    pub total_data: Totals,
}

impl<'a> View for TotalDataNew<'a> {
    type V = Totals;

    open spec fn view(&self) -> Totals {
        Totals { consumption: self.consumption@, generated: self.generated@, new: self.new }
    }
}

impl View for DailyNew {
    type V = Daily;

    open spec fn view(&self) -> Daily {
        Daily {
            time: self.time.deep_view(),
            sunset: self.sunset.deep_view(),
            sunrise: self.sunrise.deep_view(),
        }
    }
}

impl View for HourlyNew {
    type V = Hourly;

    open spec fn view(&self) -> Hourly {
        Hourly {
            time: self.time.deep_view(),
            temperature_2_m: self.temperature_2_m.deep_view(),
            rain: self.rain.deep_view(),
            showers: self.showers.deep_view(),
            cloud_cover: self.cloud_cover.deep_view(),
            uv_index: self.uv_index.deep_view(),
            uv_index_clear_sky: self.uv_index_clear_sky.deep_view(),
        }
    }
}

impl View for WeatherNew {
    type V = Weather;

    open spec fn view(&self) -> Weather {
        Weather { hourly: self.hourly@, daily: self.daily@ }
    }
}

impl<'a> View for NewUiStruct<'a> {
    type V = Telemetry;

    open spec fn view(&self) -> Telemetry {
        Telemetry {
            ts: self.ts@,
            stat_state: self.stat_state@,
            gui_bat_data_power: self.gui_bat_data_power@,
            gui_inverter_power: self.gui_inverter_power@,
            gui_house_pow: self.gui_house_pow@,
            gui_grid_pow: self.gui_grid_pow@,
            gui_bat_data_fuel_charge: self.gui_bat_data_fuel_charge@,
            gui_charging_info: self.gui_charging_info@,
            gui_boosting_info: self.gui_boosting_info@,
            weather: self.weather@,
            total_data: self.total_data@,
        }
    }
}

} // verus!
