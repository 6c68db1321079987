//! Domain types of the desktop interface: connection states, filters,
//! measurement levels, alert entries and session statistics.

use std::time::Instant;
use vstd::prelude::*;
use crate::clock::{instant_now, nanos_since};
use crate::text::{dec, push_dec, push_str};
use crate::timefmt::{hms_text, local_time_text};

verus! {

/// Connection state for a device.
#[derive(Debug, Clone)]
pub enum ConnectionState {
    Disconnected,
    Connecting,
    Connected,
    /// Reconnecting after a connection failure, with the attempt number and
    /// the error of the last attempt, if any.
    Reconnecting { attempt: u32, last_error: Option<String> },
    Error(String),
}

impl Default for ConnectionState {
    fn default() -> (r: Self)
        ensures
            r is Disconnected,
    {
        ConnectionState::Disconnected
    }
}

/// The status message of a connection state.
pub open spec fn connection_status_text(s: ConnectionState) -> Seq<char> {
    match s {
        ConnectionState::Disconnected => "Disconnected"@,
        ConnectionState::Connecting => "Connecting..."@,
        ConnectionState::Connected => "Connected"@,
        ConnectionState::Reconnecting { attempt, last_error } => match last_error {
            Some(err) => "Reconnecting (attempt "@ + dec(attempt as nat) + ")... Last error: "@
                + err@,
            None => "Reconnecting (attempt "@ + dec(attempt as nat) + ")..."@,
        },
        ConnectionState::Error(msg) => "Error: "@ + msg@,
    }
}

impl ConnectionState {
    /// Whether the device is connecting, including reconnecting.
    pub fn is_connecting(&self) -> (r: bool)
        ensures
            r == (self is Connecting || self is Reconnecting),
    {
        match self {
            ConnectionState::Connecting => true,
            ConnectionState::Reconnecting { .. } => true,
            _ => false,
        }
    }

    /// A user-friendly status message.
    pub fn status_message(&self) -> (r: String)
        ensures
            r@ == connection_status_text(*self),
    {
        match self {
            ConnectionState::Disconnected => String::from_str("Disconnected"),
            ConnectionState::Connecting => String::from_str("Connecting..."),
            ConnectionState::Connected => String::from_str("Connected"),
            ConnectionState::Reconnecting { attempt, last_error } => {
                let mut s = String::from_str("Reconnecting (attempt ");
                push_dec(&mut s, *attempt as u64);
                match last_error {
                    Some(err) => {
                        push_str(&mut s, ")... Last error: ");
                        push_str(&mut s, err.as_str());
                    },
                    None => {
                        push_str(&mut s, ")...");
                    },
                }
                s
            },
            ConnectionState::Error(msg) => {
                let mut s = String::from_str("Error: ");
                push_str(&mut s, msg.as_str());
                s
            },
        }
    }

    /// A short status label.
    pub fn short_label(&self) -> (r: &'static str)
        ensures
            r@ == (match *self {
                ConnectionState::Disconnected => "Offline"@,
                ConnectionState::Connecting => "Connecting"@,
                ConnectionState::Connected => "Connected"@,
                ConnectionState::Reconnecting { .. } => "Reconnecting"@,
                ConnectionState::Error(_) => "Error"@,
            }),
    {
        match self {
            ConnectionState::Disconnected => "Offline",
            ConnectionState::Connecting => "Connecting",
            ConnectionState::Connected => "Connected",
            ConnectionState::Reconnecting { .. } => "Reconnecting",
            ConnectionState::Error(_) => "Error",
        }
    }
}

/// Active view of the interface.
#[derive(Debug, Clone, Copy, PartialEq, Eq, Structural)]
pub enum Tab {
    Dashboard,
    History,
    Settings,
    Service,
}

impl Default for Tab {
    fn default() -> (r: Self)
        ensures
            r == Tab::Dashboard,
    {
        Tab::Dashboard
    }
}

/// Time filter for history display.
#[derive(Debug, Clone, Copy, PartialEq, Eq, Structural)]
pub enum HistoryFilter {
    All,
    Last24Hours,
    Last7Days,
    Last30Days,
    /// Custom date range (dates are kept elsewhere).
    Custom,
}

impl Default for HistoryFilter {
    fn default() -> (r: Self)
        ensures
            r == HistoryFilter::All,
    {
        HistoryFilter::All
    }
}

impl HistoryFilter {
    /// Display label.
    pub fn label(&self) -> (r: &'static str)
        ensures
            r@ == (match *self {
                HistoryFilter::All => "All"@,
                HistoryFilter::Last24Hours => "24h"@,
                HistoryFilter::Last7Days => "7 days"@,
                HistoryFilter::Last30Days => "30 days"@,
                HistoryFilter::Custom => "Custom"@,
            }),
    {
        match self {
            HistoryFilter::All => "All",
            HistoryFilter::Last24Hours => "24h",
            HistoryFilter::Last7Days => "7 days",
            HistoryFilter::Last30Days => "30 days",
            HistoryFilter::Custom => "Custom",
        }
    }
}

/// Kind of Aranet device.
#[derive(Debug, Clone, Copy, PartialEq, Eq, Structural)]
pub enum DeviceType {
    Aranet4,
    Aranet2,
    AranetRadon,
    AranetRadiation,
}

/// Filter for the device list by device kind.
#[derive(Debug, Clone, Copy, PartialEq, Eq, Structural)]
pub enum DeviceTypeFilter {
    All,
    Aranet4,
    AranetRadon,
    AranetRadiation,
    Aranet2,
}

impl Default for DeviceTypeFilter {
    fn default() -> (r: Self)
        ensures
            r == DeviceTypeFilter::All,
    {
        DeviceTypeFilter::All
    }
}

impl DeviceTypeFilter {
    /// Display label.
    pub fn label(&self) -> (r: &'static str)
        ensures
            r@ == (match *self {
                DeviceTypeFilter::All => "All"@,
                DeviceTypeFilter::Aranet4 => "CO2"@,
                DeviceTypeFilter::AranetRadon => "Radon"@,
                DeviceTypeFilter::AranetRadiation => "Rad"@,
                DeviceTypeFilter::Aranet2 => "T/H"@,
            }),
    {
        match self {
            DeviceTypeFilter::All => "All",
            DeviceTypeFilter::Aranet4 => "CO2",
            DeviceTypeFilter::AranetRadon => "Radon",
            DeviceTypeFilter::AranetRadiation => "Rad",
            DeviceTypeFilter::Aranet2 => "T/H",
        }
    }

    /// Whether a device of the given kind passes this filter.
    pub fn matches(&self, device_type: Option<DeviceType>) -> (r: bool)
        ensures
            r == (match *self {
                DeviceTypeFilter::All => true,
                DeviceTypeFilter::Aranet4 => device_type == Some(DeviceType::Aranet4),
                DeviceTypeFilter::AranetRadon => device_type == Some(DeviceType::AranetRadon),
                DeviceTypeFilter::AranetRadiation => device_type == Some(
                    DeviceType::AranetRadiation,
                ),
                DeviceTypeFilter::Aranet2 => device_type == Some(DeviceType::Aranet2),
            }),
    {
        let want = match self {
            DeviceTypeFilter::All => { return true; },
            DeviceTypeFilter::Aranet4 => DeviceType::Aranet4,
            DeviceTypeFilter::AranetRadon => DeviceType::AranetRadon,
            DeviceTypeFilter::AranetRadiation => DeviceType::AranetRadiation,
            DeviceTypeFilter::Aranet2 => DeviceType::Aranet2,
        };
        match device_type {
            Some(t) => t == want,
            None => false,
        }
    }
}

/// Filter for the device list by connection status.
#[derive(Debug, Clone, Copy, PartialEq, Eq, Structural)]
pub enum ConnectionFilter {
    All,
    Connected,
    Disconnected,
}

impl Default for ConnectionFilter {
    fn default() -> (r: Self)
        ensures
            r == ConnectionFilter::All,
    {
        ConnectionFilter::All
    }
}

impl ConnectionFilter {
    /// Display label.
    pub fn label(&self) -> (r: &'static str)
        ensures
            r@ == (match *self {
                ConnectionFilter::All => "All"@,
                ConnectionFilter::Connected => "Connected"@,
                ConnectionFilter::Disconnected => "Offline"@,
            }),
    {
        match self {
            ConnectionFilter::All => "All",
            ConnectionFilter::Connected => "Connected",
            ConnectionFilter::Disconnected => "Offline",
        }
    }
}

/// Trend direction of a value.
#[derive(Debug, Clone, Copy, PartialEq, Eq, Structural)]
pub enum Trend {
    Stable,
    Rising,
    Falling,
}

impl Default for Trend {
    fn default() -> (r: Self)
        ensures
            r == Trend::Stable,
    {
        Trend::Stable
    }
}

/// The trend of an integer value: stable when it moved by less than
/// `threshold`, otherwise rising or falling.
pub open spec fn int_trend(current: int, previous: int, threshold: int) -> Trend {
    let delta = current - previous;
    if (if delta < 0 { -delta } else { delta }) < threshold {
        Trend::Stable
    } else if delta > 0 {
        Trend::Rising
    } else {
        Trend::Falling
    }
}

impl Trend {
    /// The trend between two integer readings, with a threshold.
    pub fn from_int_delta(current: i64, previous: i64, threshold: u64) -> (r: Self)
        ensures
            r == int_trend(current as int, previous as int, threshold as int),
    {
        let delta: i128 = current as i128 - previous as i128;
        let magnitude: u128 = if delta < 0 { (0 - delta) as u128 } else { delta as u128 };
        if magnitude < threshold as u128 {
            Trend::Stable
        } else if delta > 0 {
            Trend::Rising
        } else {
            Trend::Falling
        }
    }

    /// Indicator text.
    pub fn indicator(&self) -> (r: &'static str)
        ensures
            r@ == (match *self {
                Trend::Stable => "-"@,
                Trend::Rising => "^"@,
                Trend::Falling => "v"@,
            }),
    {
        match self {
            Trend::Stable => "-",
            Trend::Rising => "^",
            Trend::Falling => "v",
        }
    }
}

/// CO2 level for color coding.
#[derive(Debug, Clone, Copy, PartialEq, Eq, Structural)]
pub enum Co2Level {
    /// Below 800 ppm.
    Good,
    /// 800 to 999 ppm.
    Moderate,
    /// 1000 to 1499 ppm.
    Poor,
    /// 1500 ppm and above.
    Bad,
}

/// The CO2 level of a concentration in ppm.
pub open spec fn co2_level(ppm: int) -> Co2Level {
    if ppm < 800 {
        Co2Level::Good
    } else if ppm < 1000 {
        Co2Level::Moderate
    } else if ppm < 1500 {
        Co2Level::Poor
    } else {
        Co2Level::Bad
    }
}

/// Severity rank of a CO2 level (good is 0, bad is 3).
pub open spec fn co2_rank(l: Co2Level) -> int {
    match l {
        Co2Level::Good => 0,
        Co2Level::Moderate => 1,
        Co2Level::Poor => 2,
        Co2Level::Bad => 3,
    }
}

impl Co2Level {
    /// Classifies a CO2 concentration.
    pub fn from_ppm(co2: u16) -> (r: Self)
        ensures
            r == co2_level(co2 as int),
    {
        if co2 < 800 {
            Co2Level::Good
        } else if co2 < 1000 {
            Co2Level::Moderate
        } else if co2 < 1500 {
            Co2Level::Poor
        } else {
            Co2Level::Bad
        }
    }
}

/// Radon level for color coding (WHO and EPA guidance).
#[derive(Debug, Clone, Copy, PartialEq, Eq, Structural)]
pub enum RadonLevel {
    /// Below 100 Bq/m³.
    Low,
    /// 100 to 300 Bq/m³.
    Moderate,
    /// Above 300 Bq/m³.
    High,
}

/// The radon level of a concentration in Bq/m³.
pub open spec fn radon_level(bq: int) -> RadonLevel {
    if bq < 100 {
        RadonLevel::Low
    } else if bq <= 300 {
        RadonLevel::Moderate
    } else {
        RadonLevel::High
    }
}

impl RadonLevel {
    /// Classifies a radon concentration.
    pub fn from_bq(bq: u32) -> (r: Self)
        ensures
            r == radon_level(bq as int),
    {
        if bq < 100 {
            RadonLevel::Low
        } else if bq <= 300 {
            RadonLevel::Moderate
        } else {
            RadonLevel::High
        }
    }

    /// Status text.
    pub fn status_text(&self) -> (r: &'static str)
        ensures
            r@ == (match *self {
                RadonLevel::Low => "Low"@,
                RadonLevel::Moderate => "Moderate"@,
                RadonLevel::High => "High"@,
            }),
    {
        match self {
            RadonLevel::Low => "Low",
            RadonLevel::Moderate => "Moderate",
            RadonLevel::High => "High",
        }
    }
}

/// Radiation level for color coding.
#[derive(Debug, Clone, Copy, PartialEq, Eq, Structural)]
pub enum RadiationLevel {
    /// Below 0.3 µSv/h.
    Normal,
    /// 0.3 to 1.0 µSv/h.
    Elevated,
    /// Above 1.0 µSv/h.
    High,
}

impl RadiationLevel {
    /// Status text.
    pub fn status_text(&self) -> (r: &'static str)
        ensures
            r@ == (match *self {
                RadiationLevel::Normal => "Normal"@,
                RadiationLevel::Elevated => "Elevated"@,
                RadiationLevel::High => "High"@,
            }),
    {
        match self {
            RadiationLevel::Normal => "Normal",
            RadiationLevel::Elevated => "Elevated",
            RadiationLevel::High => "High",
        }
    }
}

/// Severity of an alert.
#[derive(Debug, Clone, Copy, PartialEq, Eq, Structural)]
pub enum AlertSeverity {
    /// Informational (such as a level returning to normal).
    Info,
    /// Warning (such as CO2 becoming elevated).
    Warning,
    /// Critical (such as CO2 at a dangerous level).
    Critical,
}

impl AlertSeverity {
    /// Display label.
    pub fn label(&self) -> (r: &'static str)
        ensures
            r@ == (match *self {
                AlertSeverity::Info => "Info"@,
                AlertSeverity::Warning => "Warning"@,
                AlertSeverity::Critical => "Critical"@,
            }),
    {
        match self {
            AlertSeverity::Info => "Info",
            AlertSeverity::Warning => "Warning",
            AlertSeverity::Critical => "Critical",
        }
    }

    /// Icon text.
    pub fn icon(&self) -> (r: &'static str)
        ensures
            r@ == (match *self {
                AlertSeverity::Info => "[i]"@,
                AlertSeverity::Warning => "[!]"@,
                AlertSeverity::Critical => "[!!]"@,
            }),
    {
        match self {
            AlertSeverity::Info => "[i]",
            AlertSeverity::Warning => "[!]",
            AlertSeverity::Critical => "[!!]",
        }
    }
}

/// Measurement that triggered an alert.
#[derive(Debug, Clone, Copy, PartialEq, Eq, Structural)]
pub enum AlertType {
    Co2,
    Radon,
    Radiation,
    BatteryLow,
}

impl AlertType {
    /// Display label.
    pub fn label(&self) -> (r: &'static str)
        ensures
            r@ == (match *self {
                AlertType::Co2 => "CO2"@,
                AlertType::Radon => "Radon"@,
                AlertType::Radiation => "Radiation"@,
                AlertType::BatteryLow => "Battery"@,
            }),
    {
        match self {
            AlertType::Co2 => "CO2",
            AlertType::Radon => "Radon",
            AlertType::Radiation => "Radiation",
            AlertType::BatteryLow => "Battery",
        }
    }
}

/// An entry of the alert history.
#[derive(Debug, Clone)]
pub struct AlertEntry {
    /// When the alert was raised.
    pub timestamp: Instant,
    /// Local wall-clock time of the alert, as `HH:MM:SS`.
    pub time_str: String,
    /// Name of the device that raised the alert.
    pub device_name: String,
    /// Kind of measurement.
    pub alert_type: AlertType,
    /// Severity.
    pub severity: AlertSeverity,
    /// The measured value, with its unit.
    pub value: String,
    /// Description.
    pub message: String,
}

/// Severity and message of a CO2 alert.
pub open spec fn co2_alert_severity(level: Co2Level) -> AlertSeverity {
    match level {
        Co2Level::Good => AlertSeverity::Info,
        Co2Level::Moderate => AlertSeverity::Info,
        Co2Level::Poor => AlertSeverity::Warning,
        Co2Level::Bad => AlertSeverity::Critical,
    }
}

/// Message of a CO2 alert.
pub open spec fn co2_alert_message(ppm: nat, level: Co2Level) -> Seq<char> {
    match level {
        Co2Level::Good => "CO2 level returned to normal ("@ + dec(ppm) + " ppm)"@,
        Co2Level::Moderate => "CO2 level moderate ("@ + dec(ppm) + " ppm) - consider ventilating"@,
        Co2Level::Poor => "CO2 level poor ("@ + dec(ppm) + " ppm) - ventilation recommended"@,
        Co2Level::Bad => "CO2 level dangerous ("@ + dec(ppm) + " ppm) - ventilate immediately"@,
    }
}

/// Severity of a radon alert.
pub open spec fn radon_alert_severity(level: RadonLevel) -> AlertSeverity {
    match level {
        RadonLevel::Low => AlertSeverity::Info,
        RadonLevel::Moderate => AlertSeverity::Warning,
        RadonLevel::High => AlertSeverity::Critical,
    }
}

/// Message of a radon alert.
pub open spec fn radon_alert_message(bq: nat, level: RadonLevel) -> Seq<char> {
    match level {
        RadonLevel::Low => "Radon level returned to low ("@ + dec(bq) + " Bq/m³)"@,
        RadonLevel::Moderate => "Radon level moderate ("@ + dec(bq) + " Bq/m³) - consider mitigation"@,
        RadonLevel::High => "Radon level high ("@ + dec(bq) + " Bq/m³) - action recommended"@,
    }
}

/// Whether a text is a local time of day rendered as `HH:MM:SS`.
pub open spec fn is_time_of_day_text(t: Seq<char>) -> bool {
    exists|h: nat, m: nat, s: nat| h < 24 && m < 60 && s < 60 && t == hms_text(h, m, s)
}

/// Text of an alert's age.
pub open spec fn age_text(secs: nat) -> Seq<char> {
    if secs < 60 {
        "just now"@
    } else if secs < 3600 {
        dec(secs / 60) + " min ago"@
    } else if secs < 86400 {
        dec(secs / 3600) + " hr ago"@
    } else {
        dec(secs / 86400) + " days ago"@
    }
}

/// Renders how long ago something happened, from elapsed seconds.
pub fn age_str_from_secs(secs: u64) -> (r: String)
    ensures
        r@ == age_text(secs as nat),
{
    if secs < 60 {
        String::from_str("just now")
    } else if secs < 3600 {
        let mut s = String::new();
        push_dec(&mut s, secs / 60);
        push_str(&mut s, " min ago");
        s
    } else if secs < 86400 {
        let mut s = String::new();
        push_dec(&mut s, secs / 3600);
        push_str(&mut s, " hr ago");
        s
    } else {
        let mut s = String::new();
        push_dec(&mut s, secs / 86400);
        push_str(&mut s, " days ago");
        s
    }
}

impl AlertEntry {
    /// A CO2 alert for a device at the given concentration and level.
    pub fn co2(device_name: &str, co2_ppm: u16, level: Co2Level) -> (r: Self)
        ensures
            r.device_name@ == device_name@,
            r.alert_type == AlertType::Co2,
            r.severity == co2_alert_severity(level),
            r.value@ == dec(co2_ppm as nat) + " ppm"@,
            r.message@ == co2_alert_message(co2_ppm as nat, level),
            is_time_of_day_text(r.time_str@),
    {
        let mut message = match level {
            Co2Level::Good => String::from_str("CO2 level returned to normal ("),
            Co2Level::Moderate => String::from_str("CO2 level moderate ("),
            Co2Level::Poor => String::from_str("CO2 level poor ("),
            Co2Level::Bad => String::from_str("CO2 level dangerous ("),
        };
        push_dec(&mut message, co2_ppm as u64);
        match level {
            Co2Level::Good => push_str(&mut message, " ppm)"),
            Co2Level::Moderate => push_str(&mut message, " ppm) - consider ventilating"),
            Co2Level::Poor => push_str(&mut message, " ppm) - ventilation recommended"),
            Co2Level::Bad => push_str(&mut message, " ppm) - ventilate immediately"),
        }
        let severity = match level {
            Co2Level::Good => AlertSeverity::Info,
            Co2Level::Moderate => AlertSeverity::Info,
            Co2Level::Poor => AlertSeverity::Warning,
            Co2Level::Bad => AlertSeverity::Critical,
        };
        let mut value = String::new();
        push_dec(&mut value, co2_ppm as u64);
        push_str(&mut value, " ppm");
        AlertEntry {
            timestamp: instant_now(),
            time_str: local_time_text(),
            device_name: String::from_str(device_name),
            alert_type: AlertType::Co2,
            severity,
            value,
            message,
        }
    }

    /// A radon alert for a device at the given concentration and level.
    pub fn radon(device_name: &str, bq: u32, level: RadonLevel) -> (r: Self)
        ensures
            r.device_name@ == device_name@,
            r.alert_type == AlertType::Radon,
            r.severity == radon_alert_severity(level),
            r.value@ == dec(bq as nat) + " Bq/m³"@,
            r.message@ == radon_alert_message(bq as nat, level),
            is_time_of_day_text(r.time_str@),
    {
        let mut message = match level {
            RadonLevel::Low => String::from_str("Radon level returned to low ("),
            RadonLevel::Moderate => String::from_str("Radon level moderate ("),
            RadonLevel::High => String::from_str("Radon level high ("),
        };
        push_dec(&mut message, bq as u64);
        match level {
            RadonLevel::Low => push_str(&mut message, " Bq/m³)"),
            RadonLevel::Moderate => push_str(&mut message, " Bq/m³) - consider mitigation"),
            RadonLevel::High => push_str(&mut message, " Bq/m³) - action recommended"),
        }
        let severity = match level {
            RadonLevel::Low => AlertSeverity::Info,
            RadonLevel::Moderate => AlertSeverity::Warning,
            RadonLevel::High => AlertSeverity::Critical,
        };
        let mut value = String::new();
        push_dec(&mut value, bq as u64);
        push_str(&mut value, " Bq/m³");
        AlertEntry {
            timestamp: instant_now(),
            time_str: local_time_text(),
            device_name: String::from_str(device_name),
            alert_type: AlertType::Radon,
            severity,
            value,
            message,
        }
    }

    /// A low-battery alert.
    pub fn battery_low(device_name: &str, battery_pct: u8) -> (r: Self)
        ensures
            r.device_name@ == device_name@,
            r.alert_type == AlertType::BatteryLow,
            r.severity == AlertSeverity::Warning,
            r.value@ == dec(battery_pct as nat) + "%"@,
            r.message@ == "Battery low ("@ + dec(battery_pct as nat) + "%) - consider charging"@,
            is_time_of_day_text(r.time_str@),
    {
        let mut value = String::new();
        push_dec(&mut value, battery_pct as u64);
        push_str(&mut value, "%");
        let mut message = String::from_str("Battery low (");
        push_dec(&mut message, battery_pct as u64);
        push_str(&mut message, "%) - consider charging");
        AlertEntry {
            timestamp: instant_now(),
            time_str: local_time_text(),
            device_name: String::from_str(device_name),
            alert_type: AlertType::BatteryLow,
            severity: AlertSeverity::Warning,
            value,
            message,
        }
    }

    /// The age of this alert as text, reading the clock.
    pub fn age_str(&self) -> (r: String)
        ensures
            exists|secs: nat| r@ == age_text(secs),
    {
        let nanos = nanos_since(&self.timestamp);
        let secs128 = nanos / 1_000_000_000;
        let secs: u64 = if secs128 > u64::MAX as u128 { u64::MAX } else { secs128 as u64 };
        age_str_from_secs(secs)
    }
}

} // verus!
