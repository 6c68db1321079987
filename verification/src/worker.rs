//! What the background worker does with the outcome of its work on one
//! device: which events it sends to the interface and what it saves.
//!
//! The worker talks to the device and the local store; after each piece of
//! outside work it hands what came back to a function here and performs
//! the `DeviceAction`s it gets, in order.

use vstd::prelude::*;
use crate::device::CurrentReading;
use crate::helpers::interval_error;
use crate::history::HistoryRecord;
use crate::session::{opt_view, CachedDevice, DiscoveredDevice, SensorEvent};
use crate::sync::ErrorText;
use crate::text::{dec, push_dec, push_str};
use crate::types::DeviceType;

verus! {

/// What one connect-and-read of a device brought back.
#[derive(Debug)]
pub struct DeviceRead {
    pub name: Option<String>,
    pub device_type: Option<DeviceType>,
    /// The current values, when the device sent them.
    pub reading: Option<CurrentReading>,
    /// Whether the device's settings were read (the worker keeps them).
    pub settings_read: bool,
    /// The signal strength, when it was read.
    pub rssi: Option<i16>,
}

/// How a connect-and-read ended.
#[derive(Debug)]
pub enum ReadOutcome {
    /// The device was reached.
    Read(DeviceRead),
    /// Connecting or reading failed, after the retries.
    Failed(ErrorText),
    /// It took longer than the 30 seconds allowed.
    TimedOut,
    /// The user cancelled it.
    Cancelled,
}

/// What the interface is told about one device.
#[derive(Debug)]
pub enum DeviceReport {
    Connecting,
    SignalStrength(i16),
    Connected { name: Option<String>, device_type: Option<DeviceType>, rssi: Option<i16> },
    Reading(CurrentReading),
    ConnectionFailed(ErrorText),
    ConnectionTimedOut,
    ConnectCancelled,
    ReadingFailed(ErrorText),
    /// The device answered without current values.
    NoValues,
    RefreshTimedOut,
    RefreshCancelled,
    Disconnected,
    IntervalChanged(u16),
    /// The interval is not one the devices take.
    IntervalInvalid(u16),
    IntervalFailed(ErrorText),
    RangeChanged(bool),
    RangeFailed(ErrorText),
    SmartHomeChanged(bool),
    SmartHomeFailed(ErrorText),
    AliasChanged(Option<String>),
    AliasFailed(String),
    Forgotten,
    ForgetFailed(String),
    PollingStarted(u64),
    PollingStopped,
}

/// Something the worker does next for the device.
#[derive(Debug)]
pub enum DeviceAction {
    /// Tell the interface.
    Report(DeviceReport),
    /// Remember the device's name and kind in the store.
    SaveConnection { name: Option<String>, device_type: Option<DeviceType> },
    /// Send the settings that were read.
    SendSettings,
    /// Save the reading in the store.
    SaveReading(CurrentReading),
    /// Load the stored history and send it to the interface.
    LoadHistory,
    /// Connect to the device.
    Connect,
    /// Write the setting to the connected device.
    Apply,
    /// Disconnect from the device.
    Disconnect,
}

/// The message of a connection that timed out.
pub open spec fn connect_timeout_message() -> Seq<char> {
    "Connection timed out"@
}

/// The suggestion for a connection that timed out.
pub open spec fn connect_timeout_suggestion() -> Seq<char> {
    "The device may be out of range or busy. Try moving closer."@
}

/// The message of a refresh that timed out.
pub open spec fn refresh_timeout_message() -> Seq<char> {
    "Refresh timed out after 30s"@
}

/// The suggestion for a refresh that timed out.
pub open spec fn refresh_timeout_suggestion() -> Seq<char> {
    "The device may be out of range. Try moving closer."@
}

/// The message of a device that answered without current values.
pub open spec fn no_values_message() -> Seq<char> {
    "Failed to read current values"@
}

/// The suggestion for a device that answered without current values.
pub open spec fn no_values_suggestion() -> Seq<char> {
    "The device responded but didn't send valid data. Try again."@
}

/// An error event's text and suggestion.
pub open spec fn error_is(
    error: String,
    suggestion: Option<String>,
    message: Seq<char>,
    hint: Option<Seq<char>>,
) -> bool {
    error@ == message && opt_view(suggestion) == hint
}

/// The event that reports `r` about device `id`.
pub open spec fn device_event_matches(id: Seq<char>, r: DeviceReport, e: SensorEvent) -> bool {
    match r {
        DeviceReport::Connecting => e matches SensorEvent::DeviceConnecting { device_id }
            && device_id@ == id,
        DeviceReport::SignalStrength(x) => e matches SensorEvent::SignalStrengthUpdate {
            device_id,
            rssi,
        } && device_id@ == id && rssi == x,
        DeviceReport::Connected { name, device_type, rssi } => e matches SensorEvent::DeviceConnected {
            device_id,
            name: n,
            device_type: t,
            rssi: s,
        } && device_id@ == id && n == name && t == device_type && s == rssi,
        DeviceReport::Reading(x) => e matches SensorEvent::ReadingUpdated { device_id, reading }
            && device_id@ == id && reading == x,
        DeviceReport::ConnectionFailed(err) => e matches SensorEvent::ConnectionError {
            device_id,
            error,
            suggestion,
        } && device_id@ == id && error == err.message && suggestion == err.suggestion,
        DeviceReport::ConnectionTimedOut => e matches SensorEvent::ConnectionError {
            device_id,
            error,
            suggestion,
        } && device_id@ == id && error_is(
            error,
            suggestion,
            connect_timeout_message(),
            Some(connect_timeout_suggestion()),
        ),
        DeviceReport::ConnectCancelled => e matches SensorEvent::OperationCancelled { operation }
            && operation@ == "Connect to "@ + id,
        DeviceReport::ReadingFailed(err) => e matches SensorEvent::ReadingError {
            device_id,
            error,
            suggestion,
        } && device_id@ == id && error == err.message && suggestion == err.suggestion,
        DeviceReport::NoValues => e matches SensorEvent::ReadingError {
            device_id,
            error,
            suggestion,
        } && device_id@ == id && error_is(
            error,
            suggestion,
            no_values_message(),
            Some(no_values_suggestion()),
        ),
        DeviceReport::RefreshTimedOut => e matches SensorEvent::ReadingError {
            device_id,
            error,
            suggestion,
        } && device_id@ == id && error_is(
            error,
            suggestion,
            refresh_timeout_message(),
            Some(refresh_timeout_suggestion()),
        ),
        DeviceReport::RefreshCancelled => e matches SensorEvent::OperationCancelled { operation }
            && operation@ == "Refresh "@ + id,
        DeviceReport::Disconnected => e matches SensorEvent::DeviceDisconnected { device_id }
            && device_id@ == id,
        DeviceReport::IntervalChanged(s) => e matches SensorEvent::IntervalChanged {
            device_id,
            interval_secs,
        } && device_id@ == id && interval_secs == s,
        DeviceReport::IntervalInvalid(s) => e matches SensorEvent::IntervalError {
            device_id,
            error,
            suggestion,
        } && device_id@ == id && error@ == "Invalid interval: "@ + dec(s as nat)
            + " seconds. Must be 60, 120, 300, or 600."@ && suggestion is None,
        DeviceReport::IntervalFailed(err) => e matches SensorEvent::IntervalError {
            device_id,
            error,
            suggestion,
        } && device_id@ == id && error == err.message && suggestion == err.suggestion,
        DeviceReport::RangeChanged(x) => e matches SensorEvent::BluetoothRangeChanged {
            device_id,
            extended,
        } && device_id@ == id && extended == x,
        DeviceReport::RangeFailed(err) => e matches SensorEvent::BluetoothRangeError {
            device_id,
            error,
            suggestion,
        } && device_id@ == id && error == err.message && suggestion == err.suggestion,
        DeviceReport::SmartHomeChanged(x) => e matches SensorEvent::SmartHomeChanged {
            device_id,
            enabled,
        } && device_id@ == id && enabled == x,
        DeviceReport::SmartHomeFailed(err) => e matches SensorEvent::SmartHomeError {
            device_id,
            error,
            suggestion,
        } && device_id@ == id && error == err.message && suggestion == err.suggestion,
        DeviceReport::AliasChanged(a) => e matches SensorEvent::AliasChanged { device_id, alias }
            && device_id@ == id && alias == a,
        DeviceReport::AliasFailed(msg) => e matches SensorEvent::AliasError { device_id, error }
            && device_id@ == id && error == msg,
        DeviceReport::Forgotten => e matches SensorEvent::DeviceForgotten { device_id }
            && device_id@ == id,
        DeviceReport::ForgetFailed(msg) => e matches SensorEvent::ForgetDeviceError {
            device_id,
            error,
        } && device_id@ == id && error == msg,
        DeviceReport::PollingStarted(s) => e matches SensorEvent::BackgroundPollingStarted {
            device_id,
            interval_secs,
        } && device_id@ == id && interval_secs == s,
        DeviceReport::PollingStopped => e matches SensorEvent::BackgroundPollingStopped {
            device_id,
        } && device_id@ == id,
    }
}

/// A device identifier as an owned string.
fn id_string(device_id: &str) -> (s: String)
    ensures
        s@ == device_id@,
{
    String::from_str(device_id)
}

/// An error event's text and suggestion from two literals.
fn error_pair(message: &str, hint: &str) -> (r: (String, Option<String>))
    ensures
        error_is(r.0, r.1, message@, Some(hint@)),
{
    (String::from_str(message), Some(String::from_str(hint)))
}

/// The event that reports `r` about device `device_id`.
pub fn device_event(device_id: &str, r: DeviceReport) -> (e: SensorEvent)
    ensures
        device_event_matches(device_id@, r, e),
{
    match r {
        DeviceReport::Connecting => SensorEvent::DeviceConnecting { device_id: id_string(device_id) },
        DeviceReport::SignalStrength(rssi) => SensorEvent::SignalStrengthUpdate {
            device_id: id_string(device_id),
            rssi,
        },
        DeviceReport::Connected { name, device_type, rssi } => SensorEvent::DeviceConnected {
            device_id: id_string(device_id),
            name,
            device_type,
            rssi,
        },
        DeviceReport::Reading(reading) => SensorEvent::ReadingUpdated {
            device_id: id_string(device_id),
            reading,
        },
        DeviceReport::ConnectionFailed(err) => SensorEvent::ConnectionError {
            device_id: id_string(device_id),
            error: err.message,
            suggestion: err.suggestion,
        },
        DeviceReport::ConnectionTimedOut => {
            let (error, suggestion) = error_pair(
                "Connection timed out",
                "The device may be out of range or busy. Try moving closer.",
            );
            SensorEvent::ConnectionError { device_id: id_string(device_id), error, suggestion }
        },
        DeviceReport::ConnectCancelled => {
            let mut operation = String::from_str("Connect to ");
            push_str(&mut operation, device_id);
            SensorEvent::OperationCancelled { operation }
        },
        DeviceReport::ReadingFailed(err) => SensorEvent::ReadingError {
            device_id: id_string(device_id),
            error: err.message,
            suggestion: err.suggestion,
        },
        DeviceReport::NoValues => {
            let (error, suggestion) = error_pair(
                "Failed to read current values",
                "The device responded but didn't send valid data. Try again.",
            );
            SensorEvent::ReadingError { device_id: id_string(device_id), error, suggestion }
        },
        DeviceReport::RefreshTimedOut => {
            let (error, suggestion) = error_pair(
                "Refresh timed out after 30s",
                "The device may be out of range. Try moving closer.",
            );
            SensorEvent::ReadingError { device_id: id_string(device_id), error, suggestion }
        },
        DeviceReport::RefreshCancelled => {
            let mut operation = String::from_str("Refresh ");
            push_str(&mut operation, device_id);
            SensorEvent::OperationCancelled { operation }
        },
        DeviceReport::Disconnected => SensorEvent::DeviceDisconnected {
            device_id: id_string(device_id),
        },
        DeviceReport::IntervalChanged(interval_secs) => SensorEvent::IntervalChanged {
            device_id: id_string(device_id),
            interval_secs,
        },
        DeviceReport::IntervalInvalid(secs) => {
            let mut error = String::from_str("Invalid interval: ");
            push_dec(&mut error, secs as u64);
            push_str(&mut error, " seconds. Must be 60, 120, 300, or 600.");
            SensorEvent::IntervalError { device_id: id_string(device_id), error, suggestion: None }
        },
        DeviceReport::IntervalFailed(err) => SensorEvent::IntervalError {
            device_id: id_string(device_id),
            error: err.message,
            suggestion: err.suggestion,
        },
        DeviceReport::RangeChanged(extended) => SensorEvent::BluetoothRangeChanged {
            device_id: id_string(device_id),
            extended,
        },
        DeviceReport::RangeFailed(err) => SensorEvent::BluetoothRangeError {
            device_id: id_string(device_id),
            error: err.message,
            suggestion: err.suggestion,
        },
        DeviceReport::SmartHomeChanged(enabled) => SensorEvent::SmartHomeChanged {
            device_id: id_string(device_id),
            enabled,
        },
        DeviceReport::SmartHomeFailed(err) => SensorEvent::SmartHomeError {
            device_id: id_string(device_id),
            error: err.message,
            suggestion: err.suggestion,
        },
        DeviceReport::AliasChanged(alias) => SensorEvent::AliasChanged {
            device_id: id_string(device_id),
            alias,
        },
        DeviceReport::AliasFailed(error) => SensorEvent::AliasError {
            device_id: id_string(device_id),
            error,
        },
        DeviceReport::Forgotten => SensorEvent::DeviceForgotten { device_id: id_string(device_id) },
        DeviceReport::ForgetFailed(error) => SensorEvent::ForgetDeviceError {
            device_id: id_string(device_id),
            error,
        },
        DeviceReport::PollingStarted(interval_secs) => SensorEvent::BackgroundPollingStarted {
            device_id: id_string(device_id),
            interval_secs,
        },
        DeviceReport::PollingStopped => SensorEvent::BackgroundPollingStopped {
            device_id: id_string(device_id),
        },
    }
}

/// A copy of an optional string.
fn copy_name(o: &Option<String>) -> (r: Option<String>)
    ensures
        opt_view(r) == opt_view(*o),
{
    match o {
        Some(s) => Some(s.clone()),
        None => None,
    }
}

/// The number of actions a condition adds.
pub open spec fn if_one(b: bool) -> int {
    if b { 1 } else { 0 }
}

/// What follows a successful connect-and-read of a device that was asked
/// to connect: its name and kind are saved, the signal strength (when read)
/// and the connection are reported, the settings (when read) are sent, the
/// reading (when there is one) is saved and reported, and the stored
/// history is loaded.
pub open spec fn connect_read_actions(d: DeviceRead, a: Seq<DeviceAction>) -> bool {
    let s = if_one(d.rssi is Some);
    let t = if_one(d.settings_read);
    let v = if_one(d.reading is Some);
    &&& a.len() == 3 + s + t + 2 * v
    &&& a[0] matches DeviceAction::SaveConnection { name, device_type } && opt_view(name) == opt_view(
        d.name,
    ) && device_type == d.device_type
    &&& (d.rssi matches Some(x) ==> a[1] == DeviceAction::Report(DeviceReport::SignalStrength(x)))
    &&& a[1 + s] == DeviceAction::Report(
        DeviceReport::Connected { name: d.name, device_type: d.device_type, rssi: d.rssi },
    )
    &&& (d.settings_read ==> a[2 + s] is SendSettings)
    &&& (d.reading matches Some(x) ==> a[2 + s + t] == DeviceAction::SaveReading(x) && a[3 + s + t]
        == DeviceAction::Report(DeviceReport::Reading(x)))
    &&& a[2 + s + t + 2 * v] is LoadHistory
}

/// What the worker does after trying to connect to a device (the
/// `Connecting` report went out before the attempt).
pub fn after_connect(outcome: ReadOutcome) -> (a: Vec<DeviceAction>)
    ensures
        match outcome {
            ReadOutcome::Read(d) => connect_read_actions(d, a@),
            ReadOutcome::Failed(e) => a@ == seq![DeviceAction::Report(DeviceReport::ConnectionFailed(e))],
            ReadOutcome::TimedOut => a@ == seq![DeviceAction::Report(DeviceReport::ConnectionTimedOut)],
            ReadOutcome::Cancelled => a@ == seq![DeviceAction::Report(DeviceReport::ConnectCancelled)],
        },
{
    let mut a: Vec<DeviceAction> = Vec::new();
    match outcome {
        ReadOutcome::Read(d) => {
            let ghost d0 = d;
            a.push(DeviceAction::SaveConnection { name: copy_name(&d.name), device_type: d.device_type });
            if let Some(x) = d.rssi {
                a.push(DeviceAction::Report(DeviceReport::SignalStrength(x)));
            }
            a.push(
                DeviceAction::Report(
                    DeviceReport::Connected { name: d.name, device_type: d.device_type, rssi: d.rssi },
                ),
            );
            if d.settings_read {
                a.push(DeviceAction::SendSettings);
            }
            if let Some(x) = d.reading {
                a.push(DeviceAction::SaveReading(x));
                a.push(DeviceAction::Report(DeviceReport::Reading(x)));
            }
            a.push(DeviceAction::LoadHistory);
            assert(connect_read_actions(d0, a@));
        },
        ReadOutcome::Failed(e) => {
            a.push(DeviceAction::Report(DeviceReport::ConnectionFailed(e)));
        },
        ReadOutcome::TimedOut => {
            a.push(DeviceAction::Report(DeviceReport::ConnectionTimedOut));
        },
        ReadOutcome::Cancelled => {
            a.push(DeviceAction::Report(DeviceReport::ConnectCancelled));
        },
    }
    a
}

/// What follows a successful connect-and-read of a device that was asked
/// for fresh values: the signal strength (when read) is reported, the
/// settings (when read) are sent, and the reading is saved and reported,
/// or its absence reported.
pub open spec fn refresh_read_actions(d: DeviceRead, a: Seq<DeviceAction>) -> bool {
    let s = if_one(d.rssi is Some);
    let t = if_one(d.settings_read);
    &&& (d.rssi matches Some(x) ==> a[0] == DeviceAction::Report(DeviceReport::SignalStrength(x)))
    &&& (d.settings_read ==> a[s] is SendSettings)
    &&& match d.reading {
        Some(x) => a.len() == s + t + 2 && a[s + t] == DeviceAction::SaveReading(x) && a[s + t + 1]
            == DeviceAction::Report(DeviceReport::Reading(x)),
        None => a.len() == s + t + 1 && a[s + t] == DeviceAction::Report(DeviceReport::NoValues),
    }
}

/// What the worker does after refreshing a device's values. A cancelled
/// refresh is reported when `report_cancel` is set (a refresh the user
/// asked for) and passes silently otherwise (a refresh of all devices or
/// a background poll).
pub fn after_refresh(outcome: ReadOutcome, report_cancel: bool) -> (a: Vec<DeviceAction>)
    ensures
        match outcome {
            ReadOutcome::Read(d) => refresh_read_actions(d, a@),
            ReadOutcome::Failed(e) => a@ == seq![DeviceAction::Report(DeviceReport::ReadingFailed(e))],
            ReadOutcome::TimedOut => a@ == seq![DeviceAction::Report(DeviceReport::RefreshTimedOut)],
            ReadOutcome::Cancelled => a@ == (if report_cancel {
                seq![DeviceAction::Report(DeviceReport::RefreshCancelled)]
            } else {
                Seq::<DeviceAction>::empty()
            }),
        },
{
    let mut a: Vec<DeviceAction> = Vec::new();
    match outcome {
        ReadOutcome::Read(d) => {
            let ghost d0 = d;
            if let Some(x) = d.rssi {
                a.push(DeviceAction::Report(DeviceReport::SignalStrength(x)));
            }
            if d.settings_read {
                a.push(DeviceAction::SendSettings);
            }
            match d.reading {
                Some(x) => {
                    a.push(DeviceAction::SaveReading(x));
                    a.push(DeviceAction::Report(DeviceReport::Reading(x)));
                },
                None => {
                    a.push(DeviceAction::Report(DeviceReport::NoValues));
                },
            }
            assert(refresh_read_actions(d0, a@));
        },
        ReadOutcome::Failed(e) => {
            a.push(DeviceAction::Report(DeviceReport::ReadingFailed(e)));
        },
        ReadOutcome::TimedOut => {
            a.push(DeviceAction::Report(DeviceReport::RefreshTimedOut));
        },
        ReadOutcome::Cancelled => {
            if report_cancel {
                a.push(DeviceAction::Report(DeviceReport::RefreshCancelled));
            }
        },
    }
    a
}

/// A setting written to a device.
#[derive(Debug, Clone, Copy, PartialEq, Eq, Structural)]
pub enum DeviceSetting {
    /// The measurement interval, in seconds.
    Interval(u16),
    /// Extended (`true`) or standard Bluetooth range.
    BluetoothRange(bool),
    /// Smart Home integration on or off.
    SmartHome(bool),
}

/// Where the writing of a setting stands.
#[derive(Debug, Clone, Copy, PartialEq, Eq, Structural)]
pub enum SettingPhase {
    Start,
    Connecting,
    Applying,
    Done,
}

/// What came of the last step.
#[derive(Debug)]
pub enum SettingInput {
    /// The request arrived.
    Begin,
    /// The connection attempt ended.
    Connected(Result<(), ErrorText>),
    /// Writing the setting ended.
    Applied(Result<(), ErrorText>),
}

/// The intervals the devices take, in seconds.
pub open spec fn valid_interval(secs: u16) -> bool {
    secs == 60 || secs == 120 || secs == 300 || secs == 600
}

/// The report of a setting that was written.
pub open spec fn setting_changed(s: DeviceSetting) -> DeviceReport {
    match s {
        DeviceSetting::Interval(secs) => DeviceReport::IntervalChanged(secs),
        DeviceSetting::BluetoothRange(extended) => DeviceReport::RangeChanged(extended),
        DeviceSetting::SmartHome(enabled) => DeviceReport::SmartHomeChanged(enabled),
    }
}

/// The report of a setting that could not be written.
pub open spec fn setting_failed(s: DeviceSetting, e: ErrorText) -> DeviceReport {
    match s {
        DeviceSetting::Interval(_) => DeviceReport::IntervalFailed(e),
        DeviceSetting::BluetoothRange(_) => DeviceReport::RangeFailed(e),
        DeviceSetting::SmartHome(_) => DeviceReport::SmartHomeFailed(e),
    }
}

/// The next phase and actions in writing setting `s`: an invalid interval
/// is refused before connecting; a failed connection is reported; once
/// connected, the device is disconnected whether the write succeeded or
/// not, and then the outcome is reported. An input that does not belong
/// to the phase changes nothing.
pub open spec fn setting_next(s: DeviceSetting, phase: SettingPhase, input: SettingInput) -> (
    SettingPhase,
    Seq<DeviceAction>,
) {
    match (phase, input) {
        (SettingPhase::Start, SettingInput::Begin) => match s {
            DeviceSetting::Interval(secs) if !valid_interval(secs) => (
                SettingPhase::Done,
                seq![DeviceAction::Report(DeviceReport::IntervalInvalid(secs))],
            ),
            _ => (SettingPhase::Connecting, seq![DeviceAction::Connect]),
        },
        (SettingPhase::Connecting, SettingInput::Connected(r)) => match r {
            Ok(_) => (SettingPhase::Applying, seq![DeviceAction::Apply]),
            Err(e) => (SettingPhase::Done, seq![DeviceAction::Report(setting_failed(s, e))]),
        },
        (SettingPhase::Applying, SettingInput::Applied(r)) => match r {
            Ok(_) => (
                SettingPhase::Done,
                seq![DeviceAction::Disconnect, DeviceAction::Report(setting_changed(s))],
            ),
            Err(e) => (
                SettingPhase::Done,
                seq![DeviceAction::Disconnect, DeviceAction::Report(setting_failed(s, e))],
            ),
        },
        (p, _) => (p, Seq::empty()),
    }
}

/// Decides the next step in writing a setting to a device.
pub fn setting_step(s: DeviceSetting, phase: SettingPhase, input: SettingInput) -> (r: (
    SettingPhase,
    Vec<DeviceAction>,
))
    ensures
        r.0 == setting_next(s, phase, input).0,
        r.1@ == setting_next(s, phase, input).1,
{
    let ghost expected = setting_next(s, phase, input);
    let mut a: Vec<DeviceAction> = Vec::new();
    let next = match (phase, input) {
        (SettingPhase::Start, SettingInput::Begin) => {
            let refused = match s {
                DeviceSetting::Interval(secs) => interval_error(secs).is_some(),
                _ => false,
            };
            if refused {
                if let DeviceSetting::Interval(secs) = s {
                    a.push(DeviceAction::Report(DeviceReport::IntervalInvalid(secs)));
                }
                SettingPhase::Done
            } else {
                a.push(DeviceAction::Connect);
                SettingPhase::Connecting
            }
        },
        (SettingPhase::Connecting, SettingInput::Connected(r)) => match r {
            Ok(_) => {
                a.push(DeviceAction::Apply);
                SettingPhase::Applying
            },
            Err(e) => {
                a.push(DeviceAction::Report(failed_report(s, e)));
                SettingPhase::Done
            },
        },
        (SettingPhase::Applying, SettingInput::Applied(r)) => {
            a.push(DeviceAction::Disconnect);
            match r {
                Ok(_) => a.push(DeviceAction::Report(changed_report(s))),
                Err(e) => a.push(DeviceAction::Report(failed_report(s, e))),
            }
            SettingPhase::Done
        },
        (p, _) => p,
    };
    assert(a@ =~= expected.1);
    (next, a)
}

/// The report of a setting that was written.
fn changed_report(s: DeviceSetting) -> (r: DeviceReport)
    ensures
        r == setting_changed(s),
{
    match s {
        DeviceSetting::Interval(secs) => DeviceReport::IntervalChanged(secs),
        DeviceSetting::BluetoothRange(extended) => DeviceReport::RangeChanged(extended),
        DeviceSetting::SmartHome(enabled) => DeviceReport::SmartHomeChanged(enabled),
    }
}

/// The report of a setting that could not be written.
fn failed_report(s: DeviceSetting, e: ErrorText) -> (r: DeviceReport)
    ensures
        r == setting_failed(s, e),
{
    match s {
        DeviceSetting::Interval(_) => DeviceReport::IntervalFailed(e),
        DeviceSetting::BluetoothRange(_) => DeviceReport::RangeFailed(e),
        DeviceSetting::SmartHome(_) => DeviceReport::SmartHomeFailed(e),
    }
}

/// A device that was connected to write a setting is disconnected before
/// the outcome is reported, and a setting is reported written only after
/// the device took it, with the value asked for.
pub proof fn lemma_setting_disconnects(s: DeviceSetting, input: SettingInput)
    ensures
        ({
            let (p, a) = setting_next(s, SettingPhase::Applying, input);
            input is Applied ==> p == SettingPhase::Done && a.len() == 2 && a[0] is Disconnect
        }),
        forall|phase: SettingPhase|
            #![trigger setting_next(s, phase, input)]
            setting_next(s, phase, input).1.contains(DeviceAction::Report(setting_changed(s)))
                ==> phase == SettingPhase::Applying && input matches SettingInput::Applied(Ok(_)),
{
    assert forall|phase: SettingPhase|
        #![trigger setting_next(s, phase, input)]
        setting_next(s, phase, input).1.contains(DeviceAction::Report(setting_changed(s)))
            implies phase == SettingPhase::Applying && input matches SettingInput::Applied(Ok(_)) by {
        let a = setting_next(s, phase, input).1;
        let k = choose|k: int| 0 <= k < a.len() && a[k] == DeviceAction::Report(setting_changed(s));
        assert(0 <= k < a.len());
    }
}

/// What the worker reports after storing a device's alias: the new alias,
/// or why it could not be stored (`None` when the store could not be
/// opened).
pub fn after_alias(alias: Option<String>, stored: Option<Result<(), String>>) -> (r: DeviceReport)
    ensures
        match stored {
            None => r matches DeviceReport::AliasFailed(m) && m@ == "Could not open database"@,
            Some(Ok(_)) => r == DeviceReport::AliasChanged(alias),
            Some(Err(e)) => r == DeviceReport::AliasFailed(e),
        },
{
    match stored {
        None => DeviceReport::AliasFailed(String::from_str("Could not open database")),
        Some(Ok(_)) => DeviceReport::AliasChanged(alias),
        Some(Err(e)) => DeviceReport::AliasFailed(e),
    }
}

/// What the worker reports after deleting a device from the store: the
/// device is forgotten whether or not the store knew it; `None` is a store
/// that could not be opened.
pub fn after_forget(deleted: Option<Result<bool, String>>) -> (r: DeviceReport)
    ensures
        match deleted {
            None => r matches DeviceReport::ForgetFailed(m) && m@ == "Could not open database"@,
            Some(Ok(_)) => r == DeviceReport::Forgotten,
            Some(Err(e)) => r == DeviceReport::ForgetFailed(e),
        },
{
    match deleted {
        None => DeviceReport::ForgetFailed(String::from_str("Could not open database")),
        Some(Ok(_)) => DeviceReport::Forgotten,
        Some(Err(e)) => DeviceReport::ForgetFailed(e),
    }
}

/// A device that is polled in the background.
#[derive(Debug)]
pub struct PollingTask {
    pub device_id: String,
    pub interval_secs: u64,
}

/// Whether a task polls device `id`.
pub open spec fn polls(tasks: Seq<PollingTask>, id: Seq<char>) -> bool {
    exists|k: int| 0 <= k < tasks.len() && (#[trigger] tasks[k]).device_id@ == id
}

/// The tasks without those for device `id`, in order.
pub open spec fn without_device(tasks: Seq<PollingTask>, id: Seq<char>) -> Seq<PollingTask>
    decreases tasks.len(),
{
    if tasks.len() == 0 {
        tasks
    } else {
        let rest = without_device(tasks.drop_last(), id);
        if tasks.last().device_id@ == id {
            rest
        } else {
            rest.push(tasks.last())
        }
    }
}

/// No device is polled twice.
pub open spec fn distinct_devices(tasks: Seq<PollingTask>) -> bool {
    forall|i: int, j: int|
        0 <= i < j < tasks.len() ==> (#[trigger] tasks[i]).device_id@ != (#[trigger] tasks[j]).device_id@
}

/// Removing the tasks of one device leaves the other devices' tasks, and
/// none of that device.
pub proof fn lemma_without_device(tasks: Seq<PollingTask>, id: Seq<char>)
    ensures
        !polls(without_device(tasks, id), id),
        forall|other: Seq<char>|
            other != id ==> (polls(without_device(tasks, id), other) == polls(tasks, other)),
        distinct_devices(tasks) ==> distinct_devices(without_device(tasks, id)),
        without_device(tasks, id).len() <= tasks.len(),
    decreases tasks.len(),
{
    if tasks.len() > 0 {
        let init = tasks.drop_last();
        let rest = without_device(init, id);
        lemma_without_device(init, id);
        assert forall|other: Seq<char>|
            other != id implies (polls(without_device(tasks, id), other) == polls(tasks, other)) by {
            if polls(tasks, other) {
                let k = choose|k: int| 0 <= k < tasks.len() && (#[trigger] tasks[k]).device_id@ == other;
                if k < tasks.len() - 1 {
                    assert(init[k] == tasks[k]);
                    assert(polls(init, other));
                    assert(polls(without_device(init, id), other) == polls(init, other));
                    let j = choose|j: int| 0 <= j < rest.len() && (#[trigger] rest[j]).device_id@ == other;
                    if tasks.last().device_id@ != id {
                        assert(without_device(tasks, id) == rest.push(tasks.last()));
                        assert(without_device(tasks, id)[j] == rest[j]);
                    }
                } else {
                    assert(without_device(tasks, id) == rest.push(tasks.last()));
                    assert(without_device(tasks, id)[rest.len() as int] == tasks.last());
                }
            }
            if polls(without_device(tasks, id), other) {
                let w = without_device(tasks, id);
                let k = choose|k: int| 0 <= k < w.len() && (#[trigger] w[k]).device_id@ == other;
                if k < rest.len() {
                    assert(w[k] == rest[k]);
                    assert(polls(rest, other));
                    assert(polls(without_device(init, id), other) == polls(init, other));
                    let j = choose|j: int| 0 <= j < init.len() && (#[trigger] init[j]).device_id@ == other;
                    assert(tasks[j] == init[j]);
                } else {
                    assert(w[k] == tasks.last());
                    assert(tasks[tasks.len() - 1] == tasks.last());
                }
            }
        }
        if tasks.last().device_id@ != id {
            let w = rest.push(tasks.last());
            assert(w == without_device(tasks, id));
            assert forall|k: int| 0 <= k < w.len() implies (#[trigger] w[k]).device_id@ != id by {
                if k < rest.len() {
                    assert(w[k] == rest[k]);
                    if w[k].device_id@ == id {
                        assert(polls(rest, id));
                    }
                }
            }
            if distinct_devices(tasks) {
                assert(distinct_devices(init));
                assert(!polls(init, tasks.last().device_id@)) by {
                    if polls(init, tasks.last().device_id@) {
                        let j = choose|j: int|
                            0 <= j < init.len() && (#[trigger] init[j]).device_id@ == tasks.last().device_id@;
                        assert(tasks[j] == init[j]);
                        assert(tasks[tasks.len() - 1] == tasks.last());
                    }
                }
                assert(!polls(rest, tasks.last().device_id@));
                assert forall|i: int, j: int|
                    0 <= i < j < w.len() implies (#[trigger] w[i]).device_id@ != (#[trigger] w[j]).device_id@ by {
                    if j == w.len() - 1 {
                        assert(w[i] == rest[i]);
                        if w[i].device_id@ == w[j].device_id@ {
                            assert(polls(rest, tasks.last().device_id@));
                        }
                    } else {
                        assert(w[i] == rest[i]);
                        assert(w[j] == rest[j]);
                    }
                }
            }
        } else {
            if distinct_devices(tasks) {
                assert(distinct_devices(init));
            }
        }
    }
}

/// The devices polled in the background.
#[derive(Debug)]
pub struct PollingTasks {
    pub tasks: Vec<PollingTask>,
}

impl PollingTasks {
    /// Every device is polled by at most one task.
    pub open spec fn wf(&self) -> bool {
        distinct_devices(self.tasks@)
    }

    /// No device is polled.
    pub fn new() -> (r: Self)
        ensures
            r.wf(),
            r.tasks@.len() == 0,
    {
        PollingTasks { tasks: Vec::new() }
    }

    /// Drops the task of device `id`; tells whether there was one (whose
    /// timer the worker then cancels).
    pub fn remove(&mut self, id: &str) -> (had: bool)
        requires
            old(self).wf(),
        ensures
            final(self).wf(),
            had == polls(old(self).tasks@, id@),
            final(self).tasks@ == without_device(old(self).tasks@, id@),
    {
        let mut rest: Vec<PollingTask> = Vec::new();
        std::mem::swap(&mut rest, &mut self.tasks);
        let ghost o = rest@;
        let mut kept_tasks: Vec<PollingTask> = Vec::new();
        let mut had = false;
        let n = rest.len();
        let mut i: usize = 0;
        assert(o.take(0) =~= Seq::<PollingTask>::empty());
        while i < n
            invariant
                n == o.len(),
                i <= n,
                rest@ == o.skip(i as int),
                kept_tasks@ == without_device(o.take(i as int), id@),
                had == polls(o.take(i as int), id@),
            decreases n - i,
        {
            let t = rest.remove(0);
            proof {
                assert(o.take(i + 1).drop_last() =~= o.take(i as int));
                assert(o.take(i + 1).last() == t);
                assert(rest@ =~= o.skip(i + 1));
                assert(o.take(i + 1)[i as int] == t);
                if polls(o.take(i as int), id@) {
                    let k = choose|k: int|
                        0 <= k < i && (#[trigger] o.take(i as int)[k]).device_id@ == id@;
                    assert(o.take(i + 1)[k] == o.take(i as int)[k]);
                }
                if polls(o.take(i + 1), id@) && t.device_id@ != id@ {
                    let k = choose|k: int|
                        0 <= k < i + 1 && (#[trigger] o.take(i + 1)[k]).device_id@ == id@;
                    assert(o.take(i + 1)[k] == o.take(i as int)[k]);
                }
            }
            if crate::text::str_eq(t.device_id.as_str(), id) {
                had = true;
            } else {
                kept_tasks.push(t);
            }
            i = i + 1;
        }
        assert(o.take(n as int) =~= o);
        proof {
            lemma_without_device(o, id@);
        }
        self.tasks = kept_tasks;
        had
    }

    /// Starts polling device `id` every `interval_secs` seconds, replacing
    /// its earlier task; tells whether there was one to cancel, and the
    /// report for the interface.
    pub fn start(&mut self, id: &str, interval_secs: u64) -> (r: (bool, DeviceReport))
        requires
            old(self).wf(),
        ensures
            final(self).wf(),
            r.0 == polls(old(self).tasks@, id@),
            r.1 == DeviceReport::PollingStarted(interval_secs),
            final(self).tasks@.drop_last() == without_device(old(self).tasks@, id@),
            final(self).tasks@.len() > 0,
            final(self).tasks@.last().device_id@ == id@,
            final(self).tasks@.last().interval_secs == interval_secs,
    {
        let had = self.remove(id);
        let ghost before = self.tasks@;
        proof {
            lemma_without_device(before, id@);
            lemma_without_device(old(self).tasks@, id@);
        }
        self.tasks.push(PollingTask { device_id: String::from_str(id), interval_secs });
        proof {
            let w = self.tasks@;
            assert(w.drop_last() =~= before);
            assert forall|i: int, j: int|
                0 <= i < j < w.len() implies (#[trigger] w[i]).device_id@ != (#[trigger] w[j]).device_id@ by {
                if j == w.len() - 1 {
                    assert(w[i] == before[i]);
                    if w[i].device_id@ == id@ {
                        assert(polls(before, id@));
                    }
                } else {
                    assert(w[i] == before[i]);
                    assert(w[j] == before[j]);
                }
            }
        }
        (had, DeviceReport::PollingStarted(interval_secs))
    }

    /// Stops polling device `id`: the report when it was polled (and its
    /// timer is cancelled), nothing otherwise.
    pub fn stop(&mut self, id: &str) -> (r: Option<DeviceReport>)
        requires
            old(self).wf(),
        ensures
            final(self).wf(),
            final(self).tasks@ == without_device(old(self).tasks@, id@),
            r == (if polls(old(self).tasks@, id@) {
                Some(DeviceReport::PollingStopped)
            } else {
                None
            }),
    {
        if self.remove(id) {
            Some(DeviceReport::PollingStopped)
        } else {
            None
        }
    }
}

/// Starting to poll a device leaves exactly one task for it and keeps the
/// other devices' tasks; stopping leaves none for it and keeps the others.
pub proof fn lemma_polling_replaces(before: Seq<PollingTask>, after: Seq<PollingTask>, id: Seq<char>)
    requires
        distinct_devices(before),
        after.len() > 0,
        after.drop_last() == without_device(before, id),
        after.last().device_id@ == id,
    ensures
        polls(after, id),
        forall|k: int| 0 <= k < after.len() && (#[trigger] after[k]).device_id@ == id ==> k == after.len() - 1,
        forall|other: Seq<char>| other != id ==> (polls(after, other) == polls(before, other)),
{
    lemma_without_device(before, id);
    let w = without_device(before, id);
    assert(after[after.len() - 1] == after.last());
    assert forall|k: int| 0 <= k < after.len() && (#[trigger] after[k]).device_id@ == id implies k
        == after.len() - 1 by {
        if k < after.len() - 1 {
            assert(after[k] == w[k]);
            assert(polls(w, id));
        }
    }
    assert forall|other: Seq<char>| other != id implies (polls(after, other) == polls(before, other)) by {
        if polls(after, other) {
            let k = choose|k: int| 0 <= k < after.len() && (#[trigger] after[k]).device_id@ == other;
            assert(k < after.len() - 1);
            assert(after[k] == w[k]);
            assert(polls(w, other));
        }
        if polls(before, other) {
            assert(polls(w, other));
            let k = choose|k: int| 0 <= k < w.len() && (#[trigger] w[k]).device_id@ == other;
            assert(after[k] == w[k]);
        }
    }
}

/// A reading remembered in the store, as the worker loads it at start-up:
/// interval and age are not stored, and read as 0.
pub fn reading_from_store(co2: u16, humidity: u8, battery: u8, radon: Option<u32>) -> (r: CurrentReading)
    ensures
        r == (CurrentReading { co2, humidity, battery, interval: 0, age: 0, radon }),
{
    CurrentReading { co2, humidity, battery, interval: 0, age: 0, radon }
}

/// The event after loading the devices remembered in the store, and the
/// devices whose stored history is loaded next, in order; `None` is a store
/// that could not be opened or listed, which leaves the list empty.
pub fn after_cached_load(devices: Option<Vec<CachedDevice>>) -> (r: (SensorEvent, Vec<String>))
    ensures
        match devices {
            None => r.0 matches SensorEvent::CachedDataLoaded { devices: d } && d@.len() == 0
                && r.1@.len() == 0,
            Some(ds) => r.0 matches SensorEvent::CachedDataLoaded { devices: d } && d@ == ds@
                && r.1@.len() == ds@.len() && forall|k: int|
                0 <= k < ds@.len() ==> (#[trigger] r.1@[k])@ == ds@[k].id@,
        },
{
    match devices {
        None => (SensorEvent::CachedDataLoaded { devices: Vec::new() }, Vec::new()),
        Some(ds) => {
            let mut ids: Vec<String> = Vec::new();
            let mut i: usize = 0;
            while i < ds.len()
                invariant
                    i <= ds@.len(),
                    ids@.len() == i,
                    forall|k: int| 0 <= k < i ==> (#[trigger] ids@[k])@ == ds@[k].id@,
                decreases ds@.len() - i,
            {
                ids.push(ds[i].id.clone());
                i = i + 1;
            }
            (SensorEvent::CachedDataLoaded { devices: ds }, ids)
        },
    }
}

/// The event after querying a device's stored history: the records, or
/// nothing when the query failed or the store could not be opened.
pub fn after_history_query(device_id: &str, records: Option<Vec<HistoryRecord>>) -> (r: Option<SensorEvent>)
    ensures
        match records {
            None => r is None,
            Some(v) => r matches Some(SensorEvent::HistoryLoaded { device_id: d, records: w })
                && d@ == device_id@ && w@ == v@,
        },
{
    match records {
        None => None,
        Some(v) => Some(SensorEvent::HistoryLoaded { device_id: id_string(device_id), records: v }),
    }
}

/// How a scan ended.
#[derive(Debug)]
pub enum ScanOutcome {
    /// These devices were found.
    Found(Vec<DiscoveredDevice>),
    /// The scan failed, with this message.
    Failed(String),
    /// The user cancelled it.
    Cancelled,
}

/// What is saved of a found device: its identifier, name and kind.
pub open spec fn saved_as(d: DiscoveredDevice, s: (String, Option<String>, Option<DeviceType>)) -> bool {
    s.0@ == d.identifier@ && opt_view(s.1) == opt_view(d.name) && s.2 == d.device_type
}

/// What the worker does after a scan (the `ScanStarted` event went out
/// before it): the devices to remember in the store, and the event.
pub fn after_scan(outcome: ScanOutcome) -> (r: (
    Vec<(String, Option<String>, Option<DeviceType>)>,
    SensorEvent,
))
    ensures
        match outcome {
            ScanOutcome::Found(ds) => {
                &&& r.0@.len() == ds@.len()
                &&& forall|k: int| 0 <= k < ds@.len() ==> saved_as(ds@[k], #[trigger] r.0@[k])
                &&& r.1 matches SensorEvent::ScanComplete { devices } && devices@ == ds@
            },
            ScanOutcome::Failed(m) => {
                &&& r.0@.len() == 0
                &&& r.1 matches SensorEvent::ScanError { error } && error == m
            },
            ScanOutcome::Cancelled => {
                &&& r.0@.len() == 0
                &&& r.1 matches SensorEvent::OperationCancelled { operation } && operation@ == "Device scan"@
            },
        },
{
    match outcome {
        ScanOutcome::Found(ds) => {
            let mut save: Vec<(String, Option<String>, Option<DeviceType>)> = Vec::new();
            let mut i: usize = 0;
            while i < ds.len()
                invariant
                    i <= ds@.len(),
                    save@.len() == i,
                    forall|k: int| 0 <= k < i ==> saved_as(ds@[k], #[trigger] save@[k]),
                decreases ds@.len() - i,
            {
                let d = &ds[i];
                save.push((d.identifier.clone(), copy_name(&d.name), d.device_type));
                i = i + 1;
            }
            (save, SensorEvent::ScanComplete { devices: ds })
        },
        ScanOutcome::Failed(error) => (Vec::new(), SensorEvent::ScanError { error }),
        ScanOutcome::Cancelled => (
            Vec::new(),
            SensorEvent::OperationCancelled { operation: String::from_str("Device scan") },
        ),
    }
}

/// The event that confirms a cancelled operation.
pub fn cancelled_event() -> (e: SensorEvent)
    ensures
        e matches SensorEvent::OperationCancelled { operation } && operation@ == "Current operation"@,
{
    SensorEvent::OperationCancelled { operation: String::from_str("Current operation") }
}

} // verus!
