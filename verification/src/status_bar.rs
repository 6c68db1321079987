//! The status bar at the bottom of the window: the connection dot and the
//! alert history button; and the demo screenshot timing.

use vstd::prelude::*;
use crate::alerts::AlertHistory;
use crate::clock::nanos_since;
use crate::device::DeviceState;
use crate::text::{dec, push_dec, push_str};
use crate::theme::{Rgb, Theme};
use crate::types::AlertSeverity;

verus! {

/// Whether some device is connected.
pub open spec fn any_connected(devices: Seq<DeviceState>) -> bool {
    exists|k: int| 0 <= k < devices.len() && (#[trigger] devices[k]).connection is Connected
}

/// The color of the connection dot: warning while scanning, success when
/// a device is connected, muted otherwise.
pub fn status_dot_color(theme: &Theme, scanning: bool, devices: &Vec<DeviceState>) -> (r: Rgb)
    ensures
        r == (if scanning {
            theme.warning
        } else if any_connected(devices@) {
            theme.success
        } else {
            theme.text_muted
        }),
{
    if scanning {
        return theme.warning;
    }
    let mut i: usize = 0;
    while i < devices.len()
        invariant
            !scanning,
            i <= devices@.len(),
            forall|k: int| 0 <= k < i ==> !((#[trigger] devices@[k]).connection is Connected),
        decreases devices@.len() - i,
    {
        if let crate::types::ConnectionState::Connected = devices[i].connection {
            assert(devices@[i as int].connection is Connected);
            return theme.success;
        }
        i = i + 1;
    }
    theme.text_muted
}

/// An alert still counts as recent five minutes after it was raised, when
/// it is a warning or critical.
pub open spec fn recent_alert(severity: AlertSeverity, elapsed_nanos: int) -> bool {
    elapsed_nanos < 300_000_000_000 && (severity is Warning || severity is Critical)
}

/// Whether an alert raised `elapsed_nanos` ago counts as recent.
pub fn is_recent_alert(severity: AlertSeverity, elapsed_nanos: u128) -> (r: bool)
    ensures
        r == recent_alert(severity, elapsed_nanos as int),
{
    elapsed_nanos < 300_000_000_000 && match severity {
        AlertSeverity::Warning | AlertSeverity::Critical => true,
        _ => false,
    }
}

/// Whether the alert log holds a recent warning or critical alert, reading
/// the clock; without such alerts it never does.
pub fn has_recent_alerts(alerts: &AlertHistory) -> (r: bool)
    ensures
        r ==> exists|k: int|
            0 <= k < alerts.spec_entries().len() && ((#[trigger] alerts.spec_entries()[k]).severity is Warning
                || alerts.spec_entries()[k].severity is Critical),
{
    let n = alerts.len();
    let mut i: usize = 0;
    while i < n
        invariant
            n == alerts.spec_entries().len(),
            i <= n,
        decreases n - i,
    {
        let e = alerts.get(i);
        if is_recent_alert(e.severity, nanos_since(&e.timestamp)) {
            assert(alerts.spec_entries()[i as int].severity is Warning || alerts.spec_entries()[i as int].severity is Critical);
            return true;
        }
        i = i + 1;
    }
    false
}

/// The alert history button: `Alerts`, with the number of entries when
/// there are any, in warning color while an alert is recent.
pub fn alerts_button(theme: &Theme, count: usize, recent: bool) -> (r: (String, Rgb))
    ensures
        r.0@ == (if count > 0 {
            "Alerts ("@ + dec(count as nat) + ")"@
        } else {
            "Alerts"@
        }),
        r.1 == (if recent {
            theme.warning
        } else {
            theme.text_muted
        }),
{
    let text = if count > 0 {
        let mut s = String::from_str("Alerts (");
        push_dec(&mut s, count as u64);
        push_str(&mut s, ")");
        s
    } else {
        String::from_str("Alerts")
    };
    (text, if recent {
        theme.warning
    } else {
        theme.text_muted
    })
}

/// In screenshot mode the screenshot is requested on the frame numbered
/// by the configured delay.
pub fn screenshot_due(frame_count: u32, delay_frames: u32) -> (r: bool)
    ensures
        r == (frame_count == delay_frames),
{
    frame_count == delay_frames
}

} // verus!
