//! Toast notifications, uptime rendering and the fixed choices of the
//! settings screens.

use std::time::Instant;
use vstd::prelude::*;
use crate::clock::{instant_now, nanos_since};
use crate::text::{dec, push_dec, push_str, str_eq};

verus! {

/// How long toast notifications stay visible, in nanoseconds (4 s).
pub const TOAST_DURATION_NANOS: u128 = 4_000_000_000;

/// Default scan duration, in seconds.
pub const SCAN_DURATION_SECS: u64 = 5;

/// Kind of toast notification.
#[derive(Debug, Clone, Copy, PartialEq, Eq, Structural)]
pub enum ToastType {
    Success,
    Error,
    Info,
}

/// A toast notification.
#[derive(Debug)]
pub struct Toast {
    pub message: String,
    pub toast_type: ToastType,
    pub created_at: Instant,
}

impl Toast {
    /// A new toast, created now.
    pub fn new(message: String, toast_type: ToastType) -> (r: Self)
        ensures
            r.message == message,
            r.toast_type == toast_type,
    {
        Toast { message, toast_type, created_at: instant_now() }
    }

    /// Whether a toast that has been shown for `elapsed_nanos` has expired:
    /// strictly longer than the display duration.
    pub fn is_expired_after(elapsed_nanos: u128) -> (r: bool)
        ensures
            r == (elapsed_nanos > TOAST_DURATION_NANOS),
    {
        elapsed_nanos > TOAST_DURATION_NANOS
    }

    /// Whether this toast has expired, reading the clock.
    pub fn is_expired(&self) -> bool {
        Self::is_expired_after(nanos_since(&self.created_at))
    }
}

/// An uptime: seconds, then minutes and seconds, hours and minutes, and
/// from one day on days and hours.
pub open spec fn service_uptime_text(secs: nat) -> Seq<char> {
    if secs < 60 {
        dec(secs) + "s"@
    } else if secs < 3600 {
        dec(secs / 60) + "m "@ + dec(secs % 60) + "s"@
    } else if secs < 86400 {
        dec(secs / 3600) + "h "@ + dec((secs % 3600) / 60) + "m"@
    } else {
        dec(secs / 86400) + "d "@ + dec((secs % 86400) / 3600) + "h"@
    }
}

/// Formats an uptime in seconds.
pub fn format_uptime(seconds: u64) -> (r: String)
    ensures
        r@ == service_uptime_text(seconds as nat),
{
    let mut s = String::new();
    if seconds < 60 {
        push_dec(&mut s, seconds);
        push_str(&mut s, "s");
    } else if seconds < 3600 {
        push_dec(&mut s, seconds / 60);
        push_str(&mut s, "m ");
        push_dec(&mut s, seconds % 60);
        push_str(&mut s, "s");
    } else if seconds < 86400 {
        push_dec(&mut s, seconds / 3600);
        push_str(&mut s, "h ");
        push_dec(&mut s, (seconds % 3600) / 60);
        push_str(&mut s, "m");
    } else {
        push_dec(&mut s, seconds / 86400);
        push_str(&mut s, "d ");
        push_dec(&mut s, (seconds % 86400) / 3600);
        push_str(&mut s, "h");
    }
    s
}

/// The measurement intervals offered in the settings, in seconds, with labels.
pub fn interval_options() -> (r: Vec<(u16, &'static str)>)
    ensures
        r@.len() == 4,
        r@[0].0 == 60 && r@[0].1@ == "1 min"@,
        r@[1].0 == 120 && r@[1].1@ == "2 min"@,
        r@[2].0 == 300 && r@[2].1@ == "5 min"@,
        r@[3].0 == 600 && r@[3].1@ == "10 min"@,
{
    let mut v: Vec<(u16, &'static str)> = Vec::new();
    v.push((60, "1 min"));
    v.push((120, "2 min"));
    v.push((300, "5 min"));
    v.push((600, "10 min"));
    v
}

} // verus!

verus! {

/// Temperature unit a device is set to.
#[derive(Debug, Clone, Copy, PartialEq, Eq, Structural)]
pub enum TemperatureUnit {
    Celsius,
    Fahrenheit,
}

/// Radon unit a device is set to.
#[derive(Debug, Clone, Copy, PartialEq, Eq, Structural)]
pub enum RadonUnit {
    BqM3,
    PciL,
}

/// Whether temperatures are shown in Fahrenheit: the device's setting wins;
/// without one, the application preference `fahrenheit` decides.
pub fn uses_fahrenheit(device_unit: Option<TemperatureUnit>, app_preference: Option<&str>) -> (r: bool)
    ensures
        r == match device_unit {
            Some(u) => u == TemperatureUnit::Fahrenheit,
            None => app_preference matches Some(p) && p@ == "fahrenheit"@,
        },
{
    match device_unit {
        Some(u) => u == TemperatureUnit::Fahrenheit,
        None => match app_preference {
            Some(p) => str_eq(p, "fahrenheit"),
            None => false,
        },
    }
}

/// Whether radon is shown in pCi/L: only when the device is set to it.
pub fn uses_pci(device_unit: Option<RadonUnit>) -> (r: bool)
    ensures
        r == (device_unit == Some(RadonUnit::PciL)),
{
    match device_unit {
        Some(RadonUnit::PciL) => true,
        _ => false,
    }
}

/// Whether pressure is shown in inches of mercury: when the preference is `inhg`.
pub fn uses_inhg(app_preference: &str) -> (r: bool)
    ensures
        r == (app_preference@ == "inhg"@),
{
    str_eq(app_preference, "inhg")
}

/// A radon value in Bq/m³ with its unit, as shown without conversion.
pub fn format_radon_bq(bq: u32) -> (r: (String, &'static str))
    ensures
        r.0@ == dec(bq as nat),
        r.1@ == "Bq/m3"@,
{
    let mut s = String::new();
    push_dec(&mut s, bq as u64);
    (s, "Bq/m3")
}

/// The message for a measurement interval the devices do not offer, or
/// `None` for the offered ones (1, 2, 5 and 10 minutes).
pub fn interval_error(secs: u16) -> (r: Option<String>)
    ensures
        match r {
            None => secs == 60 || secs == 120 || secs == 300 || secs == 600,
            Some(m) => !(secs == 60 || secs == 120 || secs == 300 || secs == 600) && m@
                == "Invalid interval: "@ + dec(secs as nat) + " seconds. Must be 60, 120, 300, or 600."@,
        },
{
    if secs == 60 || secs == 120 || secs == 300 || secs == 600 {
        None
    } else {
        let mut m = String::from_str("Invalid interval: ");
        push_dec(&mut m, secs as u64);
        push_str(&mut m, " seconds. Must be 60, 120, 300, or 600.");
        Some(m)
    }
}

} // verus!

verus! {

/// The toasts that have not expired, in order, when toast `i` has been shown
/// for `elapsed[i]` nanoseconds.
pub open spec fn unexpired_toasts(toasts: Seq<Toast>, elapsed: Seq<u128>) -> Seq<Toast>
    decreases toasts.len(),
{
    if toasts.len() == 0 {
        toasts
    } else {
        let rest = unexpired_toasts(toasts.drop_last(), elapsed.take(toasts.len() - 1));
        if elapsed[toasts.len() - 1] > TOAST_DURATION_NANOS {
            rest
        } else {
            rest.push(toasts.last())
        }
    }
}

/// Keeps the toasts that have not expired, in order, given how long each
/// has been shown.
pub fn retain_unexpired(toasts: Vec<Toast>, elapsed: &Vec<u128>) -> (r: Vec<Toast>)
    requires
        toasts@.len() == elapsed@.len(),
    ensures
        r@ == unexpired_toasts(toasts@, elapsed@),
{
    let n = elapsed.len();
    let ghost all = toasts@;
    let mut rest = toasts;
    let mut out: Vec<Toast> = Vec::new();
    let mut i: usize = 0;
    assert(all.take(0) =~= Seq::<Toast>::empty());
    assert(all.skip(0) =~= all);
    while i < n
        invariant
            n == elapsed@.len(),
            n == all.len(),
            i <= n,
            rest@ == all.skip(i as int),
            out@ == unexpired_toasts(all.take(i as int), elapsed@.take(i as int)),
        decreases n - i,
    {
        let t = rest.remove(0);
        proof {
            assert(t == all[i as int]);
            assert(rest@ =~= all.skip(i + 1));
            let next = all.take(i + 1);
            assert(next.drop_last() =~= all.take(i as int));
            assert(next.last() == t);
            assert(elapsed@.take(i + 1).take(i as int) =~= elapsed@.take(i as int));
            assert(elapsed@.take(i + 1)[i as int] == elapsed@[i as int]);
        }
        if !Toast::is_expired_after(elapsed[i]) {
            out.push(t);
        }
        i = i + 1;
    }
    assert(all.take(n as int) =~= all);
    assert(elapsed@.take(n as int) =~= elapsed@);
    out
}

} // verus!
