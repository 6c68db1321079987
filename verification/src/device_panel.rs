//! The panel of the selected device: its badges, the controls its
//! connection state offers, and what the panel body shows.

use vstd::prelude::*;
use crate::device::{CurrentReading, DeviceState};
use crate::text::{dec, dec_int, i64_to_string, push_dec, push_str};
use crate::theme::{Rgb, Theme};
use crate::types::{ConnectionState, DeviceType};
use crate::ui::UiAction;

verus! {

/// The badge text of a device kind (its variant name).
pub open spec fn kind_badge_text(t: DeviceType) -> Seq<char> {
    match t {
        DeviceType::Aranet4 => "Aranet4"@,
        DeviceType::Aranet2 => "Aranet2"@,
        DeviceType::AranetRadon => "AranetRadon"@,
        DeviceType::AranetRadiation => "AranetRadiation"@,
    }
}

/// The badge text of a device kind.
pub fn kind_badge(t: DeviceType) -> (r: &'static str)
    ensures
        r@ == kind_badge_text(t),
{
    match t {
        DeviceType::Aranet4 => "Aranet4",
        DeviceType::Aranet2 => "Aranet2",
        DeviceType::AranetRadon => "AranetRadon",
        DeviceType::AranetRadiation => "AranetRadiation",
    }
}

/// The signal strength text and color: success above -60 dBm, warning
/// above -75 dBm, danger otherwise.
pub fn signal_label(theme: &Theme, rssi: i16) -> (r: (String, Rgb))
    ensures
        r.0@ == dec_int(rssi as int) + " dBm"@,
        r.1 == (if rssi > -60 {
            theme.success
        } else if rssi > -75 {
            theme.warning
        } else {
            theme.danger
        }),
{
    let mut s = i64_to_string(rssi as i64);
    push_str(&mut s, " dBm");
    let color = if rssi > -60 {
        theme.success
    } else if rssi > -75 {
        theme.warning
    } else {
        theme.danger
    };
    (s, color)
}

/// The low-battery badge: below 20%, in danger color below 10% and in
/// warning color otherwise.
pub fn battery_badge(theme: &Theme, battery: u8) -> (r: Option<(String, Rgb)>)
    ensures
        battery >= 20 ==> r is None,
        battery < 20 ==> (r matches Some((s, c)) && s@ == dec(battery as nat) + "% battery"@ && c == (
        if battery < 10 {
            theme.danger
        } else {
            theme.warning
        })),
{
    if battery >= 20 {
        return None;
    }
    let mut s = String::new();
    push_dec(&mut s, battery as u64);
    push_str(&mut s, "% battery");
    Some((
        s,
        if battery < 10 {
            theme.danger
        } else {
            theme.warning
        },
    ))
}

/// A reading is shown as stale when it is older than twice its measurement
/// interval (never when the interval is unknown, 0).
pub fn reading_badge_stale(reading: &CurrentReading) -> (r: bool)
    ensures
        r == (reading.interval > 0 && reading.age > 2 * reading.interval),
{
    reading.interval > 0 && (reading.age as u32) > 2 * (reading.interval as u32)
}

/// The controls the panel offers for a connection state.
#[derive(Debug)]
pub enum PanelControls {
    /// A "Connect" button.
    Connect,
    /// A progress indicator with this text.
    Busy(String),
    /// "Refresh" and "Disconnect" buttons.
    Connected,
}

/// The controls for a connection state: connect when disconnected or
/// failed, progress while connecting or reconnecting, refresh and
/// disconnect once connected.
pub fn panel_controls(c: &ConnectionState) -> (r: PanelControls)
    ensures
        match *c {
            ConnectionState::Disconnected | ConnectionState::Error(_) => r is Connect,
            ConnectionState::Connecting => r matches PanelControls::Busy(s) && s@ == "Connecting..."@,
            ConnectionState::Reconnecting { attempt, .. } => r matches PanelControls::Busy(s) && s@
                == "Reconnecting (attempt "@ + dec(attempt as nat) + ")..."@,
            ConnectionState::Connected => r is Connected,
        },
{
    match c {
        ConnectionState::Disconnected | ConnectionState::Error(_) => PanelControls::Connect,
        ConnectionState::Connecting => PanelControls::Busy(String::from_str("Connecting...")),
        ConnectionState::Reconnecting { attempt, .. } => {
            let mut s = String::from_str("Reconnecting (attempt ");
            push_dec(&mut s, *attempt as u64);
            push_str(&mut s, ")...");
            PanelControls::Busy(s)
        },
        ConnectionState::Connected => PanelControls::Connected,
    }
}

/// A button of the device panel.
#[derive(Debug, Clone, Copy, PartialEq, Eq, Structural)]
pub enum PanelButton {
    Connect,
    Refresh,
    Disconnect,
}

/// What pressing a panel button asks of the worker, for the device `d`.
pub fn press_panel_button(d: &DeviceState, b: PanelButton) -> (r: UiAction)
    ensures
        match b {
            PanelButton::Connect => r matches UiAction::Connect { device_id } && device_id@ == d.id@,
            PanelButton::Refresh => r matches UiAction::RefreshReading { device_id } && device_id@
                == d.id@,
            PanelButton::Disconnect => r matches UiAction::Disconnect { device_id } && device_id@
                == d.id@,
        },
{
    let device_id = d.id.clone();
    match b {
        PanelButton::Connect => UiAction::Connect { device_id },
        PanelButton::Refresh => UiAction::RefreshReading { device_id },
        PanelButton::Disconnect => UiAction::Disconnect { device_id },
    }
}

/// What the body of the panel shows.
#[derive(Debug, Clone, Copy, PartialEq, Eq, Structural)]
pub enum PanelBody {
    /// The readings.
    Readings,
    /// A progress indicator: connected, waiting for the first reading.
    Waiting,
    /// An invitation to connect.
    Empty,
}

/// The body of the panel: the readings when there is one, a wait while
/// connected without one, and an invitation to connect otherwise.
pub fn panel_body(d: &DeviceState) -> (r: PanelBody)
    ensures
        r == (if d.reading is Some {
            PanelBody::Readings
        } else if d.connection is Connected {
            PanelBody::Waiting
        } else {
            PanelBody::Empty
        }),
{
    if d.reading.is_some() {
        PanelBody::Readings
    } else {
        match d.connection {
            ConnectionState::Connected => PanelBody::Waiting,
            _ => PanelBody::Empty,
        }
    }
}

} // verus!

verus! {

/// The status word and color of a CO2 value on its card, by CO2 level.
pub fn co2_card_status(theme: &Theme, co2: u16) -> (r: (&'static str, Rgb))
    ensures
        match crate::types::co2_level(co2 as int) {
            crate::types::Co2Level::Good => r.0@ == "Good"@ && r.1 == theme.success,
            crate::types::Co2Level::Moderate => r.0@ == "Moderate"@ && r.1 == theme.warning,
            crate::types::Co2Level::Poor => r.0@ == "Poor"@ && r.1 == theme.caution,
            crate::types::Co2Level::Bad => r.0@ == "Bad"@ && r.1 == theme.danger,
        },
{
    match crate::types::Co2Level::from_ppm(co2) {
        crate::types::Co2Level::Good => ("Good", theme.success),
        crate::types::Co2Level::Moderate => ("Moderate", theme.warning),
        crate::types::Co2Level::Poor => ("Poor", theme.caution),
        crate::types::Co2Level::Bad => ("Bad", theme.danger),
    }
}

/// The color of a trend arrow on the CO2 card: rising is bad, falling good.
pub fn co2_trend_color(theme: &Theme, trend: crate::types::Trend) -> (r: Rgb)
    ensures
        r == match trend {
            crate::types::Trend::Rising => theme.danger,
            crate::types::Trend::Falling => theme.success,
            crate::types::Trend::Stable => theme.text_muted,
        },
{
    match trend {
        crate::types::Trend::Rising => theme.danger,
        crate::types::Trend::Falling => theme.success,
        crate::types::Trend::Stable => theme.text_muted,
    }
}

/// The session line of the CO2 card: minimum, maximum and average (0 for
/// a missing value), or nothing before the first CO2 reading.
pub fn co2_session_line(stats: &crate::device::SessionStats) -> (r: Option<(u16, u16, u16)>)
    ensures
        stats.co2_count == 0 ==> r is None,
        stats.co2_count > 0 ==> r == Some((
            match stats.co2_min {
                Some(v) => v,
                None => 0u16,
            },
            match stats.co2_max {
                Some(v) => v,
                None => 0u16,
            },
            (stats.co2_sum / stats.co2_count as u64) as u16,
        )),
{
    if stats.co2_count == 0 {
        return None;
    }
    let min = match stats.co2_min {
        Some(v) => v,
        None => 0,
    };
    let max = match stats.co2_max {
        Some(v) => v,
        None => 0,
    };
    let avg = match stats.co2_avg() {
        Some(v) => v,
        None => 0,
    };
    Some((min, max, avg))
}

/// The session line of the radon card: minimum, maximum and average (0 for
/// a missing value), or nothing before the first radon reading.
pub fn radon_session_line(stats: &crate::device::SessionStats) -> (r: Option<(u32, u32, u32)>)
    ensures
        stats.radon_count == 0 ==> r is None,
        stats.radon_count > 0 ==> r == Some((
            match stats.radon_min {
                Some(v) => v,
                None => 0u32,
            },
            match stats.radon_max {
                Some(v) => v,
                None => 0u32,
            },
            (stats.radon_sum / stats.radon_count as u64) as u32,
        )),
{
    if stats.radon_count == 0 {
        return None;
    }
    let min = match stats.radon_min {
        Some(v) => v,
        None => 0,
    };
    let max = match stats.radon_max {
        Some(v) => v,
        None => 0,
    };
    let avg = match stats.radon_avg() {
        Some(v) => v,
        None => 0,
    };
    Some((min, max, avg))
}

} // verus!
