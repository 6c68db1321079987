//! The state of the desktop interface and how it follows the events that
//! the background worker reports.
//!
//! `AppState::handle_event` is the whole decision logic of the event loop:
//! the caller performs what it returns in `EventEffects` (writing the
//! reading log, sending a notification, refreshing the tray tooltip).

use std::time::Instant;
use time::OffsetDateTime;
use vstd::prelude::*;
use crate::alerts::{co2_alert_checked, AlertHistory};
use crate::clock::{instant_now, nanos_since};
use crate::device::{empty_stats, stats_after, CurrentReading, DeviceState};
use crate::helpers::{retain_unexpired, unexpired_toasts, Toast, ToastType};
use crate::history::HistoryRecord;
use crate::text::{dec, push_dec, push_str, str_eq};
use crate::timefmt::now_utc;
use crate::tray::{check_co2_threshold, threshold_checked, TrayNotification, TrayState};
use crate::types::{ConnectionState, DeviceType};

verus! {

/// A device found by a scan.
#[derive(Debug)]
pub struct DiscoveredDevice {
    pub identifier: String,
    pub name: Option<String>,
    pub device_type: Option<DeviceType>,
    pub rssi: Option<i16>,
}

/// A device remembered from an earlier session.
#[derive(Debug)]
pub struct CachedDevice {
    pub id: String,
    pub name: Option<String>,
    pub device_type: Option<DeviceType>,
    pub reading: Option<CurrentReading>,
    pub last_sync: Option<OffsetDateTime>,
}

/// Collection statistics of one device, as reported by the service.
#[derive(Debug)]
pub struct ServiceDeviceStats {
    pub device_id: String,
    pub alias: Option<String>,
    pub poll_interval: u64,
    pub polling: bool,
    pub success_count: u64,
    pub failure_count: u64,
    pub last_poll_at: Option<OffsetDateTime>,
    pub last_error: Option<String>,
}

/// A device that the service monitors.
#[derive(Debug)]
pub struct ServiceMonitoredDevice {
    pub address: String,
    pub alias: Option<String>,
    pub poll_interval: u64,
}

/// The state of the background service, as last fetched.
#[derive(Debug)]
pub struct ServiceState {
    /// Whether the service is reachable.
    pub reachable: bool,
    /// Whether the collector is running.
    pub collector_running: bool,
    /// Uptime in seconds.
    pub uptime_seconds: Option<u64>,
    /// Per-device collection statistics.
    pub devices: Vec<ServiceDeviceStats>,
    /// When the status was fetched.
    pub fetched_at: Instant,
}

/// An event reported by the background worker.
///
/// Errors carry the error text and, where the worker has one, a suggestion
/// for the user.
#[derive(Debug)]
#[allow(inconsistent_fields)]
pub enum SensorEvent {
    ScanStarted,
    ScanComplete { devices: Vec<DiscoveredDevice> },
    ScanError { error: String },
    DeviceConnecting { device_id: String },
    DeviceConnected {
        device_id: String,
        name: Option<String>,
        device_type: Option<DeviceType>,
        rssi: Option<i16>,
    },
    DeviceDisconnected { device_id: String },
    ConnectionError { device_id: String, error: String, suggestion: Option<String> },
    ReadingUpdated { device_id: String, reading: CurrentReading },
    ReadingError { device_id: String, error: String, suggestion: Option<String> },
    HistorySyncStarted { device_id: String, total_records: Option<u16> },
    HistoryLoaded { device_id: String, records: Vec<HistoryRecord> },
    HistorySynced { device_id: String, count: usize },
    HistorySyncError { device_id: String, error: String, suggestion: Option<String> },
    IntervalChanged { device_id: String, interval_secs: u16 },
    IntervalError { device_id: String, error: String, suggestion: Option<String> },
    BluetoothRangeChanged { device_id: String, extended: bool },
    BluetoothRangeError { device_id: String, error: String, suggestion: Option<String> },
    SmartHomeChanged { device_id: String, enabled: bool },
    SmartHomeError { device_id: String, error: String, suggestion: Option<String> },
    AliasChanged { device_id: String, alias: Option<String> },
    AliasError { device_id: String, error: String },
    CachedDataLoaded { devices: Vec<CachedDevice> },
    ServiceStatusRefreshed {
        reachable: bool,
        collector_running: bool,
        uptime_seconds: Option<u64>,
        devices: Vec<ServiceDeviceStats>,
    },
    ServiceStatusError { error: String },
    ServiceCollectorStarted,
    ServiceCollectorStopped,
    ServiceCollectorError { error: String },
    SystemServiceStatus { installed: bool, running: bool },
    SystemServiceInstalled,
    SystemServiceUninstalled,
    SystemServiceStarted,
    SystemServiceStopped,
    SystemServiceError { operation: String, error: String },
    ServiceConfigFetched { devices: Vec<ServiceMonitoredDevice> },
    ServiceConfigError { error: String },
    ServiceDeviceAdded { device: ServiceMonitoredDevice },
    ServiceDeviceUpdated { device: ServiceMonitoredDevice },
    ServiceDeviceRemoved { address: String },
    ServiceDeviceError { operation: String, error: String },
    DeviceForgotten { device_id: String },
    ForgetDeviceError { device_id: String, error: String },
    HistorySyncProgress { device_id: String, downloaded: usize, total: usize },
    OperationCancelled { operation: String },
    BackgroundPollingStarted { device_id: String, interval_secs: u64 },
    BackgroundPollingStopped { device_id: String },
    SignalStrengthUpdate { device_id: String, rssi: i16 },
}

/// What the caller has to do after an event.
#[derive(Debug)]
pub struct EventEffects {
    /// A reading to append to the reading log (when logging is on), with
    /// the device identifier.
    pub log_reading: Option<(String, CurrentReading)>,
    /// A desktop notification to send.
    pub notification: Option<TrayNotification>,
    /// Whether the tray tooltip has to be refreshed.
    pub refresh_tray: bool,
    /// History sync progress `(downloaded, total)` whose percentage the
    /// caller writes into the status line, as `Syncing history... N%`.
    pub sync_percent: Option<(usize, usize)>,
}

/// No effect.
pub open spec fn no_effects(e: EventEffects) -> bool {
    e.log_reading is None && e.notification is None && !e.refresh_tray && e.sync_percent is None
}

/// The state of the desktop interface that events change.
#[derive(Debug)]
pub struct AppState {
    /// Known devices, in the order they were found.
    pub devices: Vec<DeviceState>,
    /// Index of the selected device.
    pub selected_device: Option<usize>,
    /// Indices of the devices shown side by side in comparison mode.
    pub comparison_devices: Vec<usize>,
    /// The status line.
    pub status: String,
    /// Whether a scan is running.
    pub scanning: bool,
    /// Whether a settings change is waiting for the device.
    pub updating_settings: bool,
    /// Toast notifications, oldest first.
    pub toasts: Vec<Toast>,
    /// The alert log.
    pub alerts: AlertHistory,
    /// The state shared with the tray icon.
    pub tray: TrayState,
    /// The last fetched service state.
    pub service_status: Option<ServiceState>,
    /// Whether a service status request is running.
    pub service_refreshing: bool,
    /// Whether the system service is (installed, running), when known.
    pub system_service_status: Option<(bool, bool)>,
    /// Whether a system service operation is running.
    pub system_service_pending: bool,
    /// Devices the service monitors.
    pub service_monitored_devices: Vec<ServiceMonitoredDevice>,
    /// Whether the service configuration is being fetched.
    pub service_config_loading: bool,
    /// The "add device" dialog (address, alias, poll interval), when open.
    pub add_device_dialog: Option<(String, String, u64)>,
}

/// No identifier occurs twice.
pub open spec fn unique_ids(devices: Seq<DeviceState>) -> bool {
    forall|i: int, j: int|
        0 <= i < devices.len() && 0 <= j < devices.len() && i != j ==> #[trigger] devices[i].id@
            != #[trigger] devices[j].id@
}

/// Whether a device with this identifier is known.
pub open spec fn has_id(devices: Seq<DeviceState>, id: Seq<char>) -> bool {
    exists|i: int| 0 <= i < devices.len() && #[trigger] devices[i].id@ == id
}

/// Every index is below `len`.
pub open spec fn indices_below(indices: Seq<usize>, len: nat) -> bool {
    forall|k: int| 0 <= k < indices.len() ==> #[trigger] indices[k] < len
}

impl AppState {
    /// Device identifiers are unique, the selection and the comparison
    /// point at known devices, and the alert log is within its limit.
    pub open spec fn wf(&self) -> bool {
        &&& unique_ids(self.devices@)
        &&& (self.selected_device matches Some(s) ==> s < self.devices@.len())
        &&& indices_below(self.comparison_devices@, self.devices@.len())
        &&& self.alerts.wf()
    }
}

/// Which parts of the state an event changed; everything else stays.
pub struct Touched {
    pub devices: bool,
    pub selection: bool,
    pub status: bool,
    pub scanning: bool,
    pub updating_settings: bool,
    pub toasts: bool,
    pub service_status: bool,
    pub system_service: bool,
    pub monitored: bool,
    pub alerts: bool,
    pub tray: bool,
}

/// Nothing changed.
pub open spec fn untouched() -> Touched {
    Touched {
        devices: false,
        selection: false,
        status: false,
        scanning: false,
        updating_settings: false,
        toasts: false,
        service_status: false,
        system_service: false,
        monitored: false,
        alerts: false,
        tray: false,
    }
}

/// The parts of the state not marked in `t` are the same in `o` and `n`.
pub open spec fn kept(o: AppState, n: AppState, t: Touched) -> bool {
    &&& (!t.devices ==> n.devices@ == o.devices@)
    &&& (!t.selection ==> n.selected_device == o.selected_device && n.comparison_devices@
        == o.comparison_devices@)
    &&& (!t.status ==> n.status@ == o.status@)
    &&& (!t.scanning ==> n.scanning == o.scanning)
    &&& (!t.updating_settings ==> n.updating_settings == o.updating_settings)
    &&& (!t.toasts ==> n.toasts@ == o.toasts@)
    &&& (!t.service_status ==> n.service_status == o.service_status && n.service_refreshing
        == o.service_refreshing)
    &&& (!t.system_service ==> n.system_service_status == o.system_service_status
        && n.system_service_pending == o.system_service_pending)
    &&& (!t.monitored ==> n.service_monitored_devices@ == o.service_monitored_devices@
        && n.service_config_loading == o.service_config_loading && n.add_device_dialog
        == o.add_device_dialog)
    &&& (!t.alerts ==> n.alerts == o.alerts)
    &&& (!t.tray ==> n.tray == o.tray)
}

/// One toast with this message and kind was added after the existing ones.
pub open spec fn toast_added(o: Seq<Toast>, n: Seq<Toast>, msg: Seq<char>, kind: ToastType) -> bool {
    &&& n.len() == o.len() + 1
    &&& n.drop_last() == o
    &&& n.last().message@ == msg
    &&& n.last().toast_type == kind
}

/// The devices are the same, except that the one with identifier `id` (if
/// any) changed as `rel` says.
pub open spec fn changed_where(
    o: Seq<DeviceState>,
    n: Seq<DeviceState>,
    id: Seq<char>,
    rel: spec_fn(DeviceState, DeviceState) -> bool,
) -> bool {
    &&& n.len() == o.len()
    &&& forall|i: int|
        0 <= i < o.len() ==> if #[trigger] o[i].id@ == id {
            rel(o[i], n[i])
        } else {
            n[i] == o[i]
        }
}

/// The index of the first device with this identifier.
pub fn find_device(devices: &Vec<DeviceState>, id: &str) -> (r: Option<usize>)
    ensures
        match r {
            Some(i) => i < devices@.len() && devices@[i as int].id@ == id@ && forall|j: int|
                0 <= j < i ==> #[trigger] devices@[j].id@ != id@,
            None => !has_id(devices@, id@),
        },
{
    let n = devices.len();
    let mut i: usize = 0;
    while i < n
        invariant
            n == devices@.len(),
            i <= n,
            forall|j: int| 0 <= j < i ==> #[trigger] devices@[j].id@ != id@,
        decreases n - i,
    {
        if str_eq(devices[i].id.as_str(), id) {
            return Some(i);
        }
        i = i + 1;
    }
    None
}

/// With unique identifiers, the device found by identifier is the only one
/// with it.
proof fn lemma_only_match(devices: Seq<DeviceState>, i: int)
    requires
        unique_ids(devices),
        0 <= i < devices.len(),
    ensures
        forall|j: int| 0 <= j < devices.len() && j != i ==> #[trigger] devices[j].id@ != devices[i].id@,
{
    assert forall|j: int| 0 <= j < devices.len() && j != i implies #[trigger] devices[j].id@
        != devices[i].id@ by {
        assert(devices[j].id@ != devices[i].id@);
    }
}

/// The status line shown when the interface starts.
pub open spec fn ready_status() -> Seq<char> {
    "Ready - Click 'Scan' to discover devices"@
}

impl AppState {
    /// The state at start-up: no devices, nothing selected, an empty alert
    /// log keeping the last 100 alerts, and the given tray state.
    pub fn new(tray: TrayState) -> (r: Self)
        ensures
            r.wf(),
            r.devices@.len() == 0,
            r.selected_device is None,
            r.comparison_devices@.len() == 0,
            r.status@ == ready_status(),
            !r.scanning,
            !r.updating_settings,
            r.toasts@.len() == 0,
            r.alerts.spec_entries().len() == 0,
            r.alerts.spec_max_len() == 100,
            r.tray == tray,
            r.service_status is None,
            !r.service_refreshing,
            r.system_service_status is None,
            !r.system_service_pending,
            r.service_monitored_devices@.len() == 0,
            !r.service_config_loading,
            r.add_device_dialog is None,
    {
        AppState {
            devices: Vec::new(),
            selected_device: None,
            comparison_devices: Vec::new(),
            status: String::from_str("Ready - Click 'Scan' to discover devices"),
            scanning: false,
            updating_settings: false,
            toasts: Vec::new(),
            alerts: AlertHistory::new(100),
            tray,
            service_status: None,
            service_refreshing: false,
            system_service_status: None,
            system_service_pending: false,
            service_monitored_devices: Vec::new(),
            service_config_loading: false,
            add_device_dialog: None,
        }
    }

    /// The state in demo mode: the given devices, the first one selected,
    /// and a status line announcing the demo.
    pub fn demo(tray: TrayState, devices: Vec<DeviceState>) -> (r: Self)
        requires
            unique_ids(devices@),
        ensures
            r.wf(),
            r.devices@ == devices@,
            r.selected_device == (if devices@.len() > 0 {
                Some(0usize)
            } else {
                None
            }),
            r.comparison_devices@.len() == 0,
            r.status@ == "Demo Mode - 3 devices loaded"@,
            !r.scanning,
            r.toasts@.len() == 0,
            r.alerts.spec_entries().len() == 0,
            r.alerts.spec_max_len() == 100,
            r.tray == tray,
    {
        let selected_device = if devices.len() > 0 {
            Some(0)
        } else {
            None
        };
        AppState {
            devices,
            selected_device,
            comparison_devices: Vec::new(),
            status: String::from_str("Demo Mode - 3 devices loaded"),
            scanning: false,
            updating_settings: false,
            toasts: Vec::new(),
            alerts: AlertHistory::new(100),
            tray,
            service_status: None,
            service_refreshing: false,
            system_service_status: None,
            system_service_pending: false,
            service_monitored_devices: Vec::new(),
            service_config_loading: false,
            add_device_dialog: None,
        }
    }

    /// Adds a toast notification.
    pub fn add_toast(&mut self, message: String, toast_type: ToastType)
        ensures
            toast_added(old(self).toasts@, final(self).toasts@, message@, toast_type),
            kept(*old(self), *final(self), Touched { toasts: true, ..untouched() }),
    {
        self.toasts.push(Toast::new(message, toast_type));
        assert(self.toasts@.drop_last() =~= old(self).toasts@);
    }

    /// Removes the expired toasts, reading the clock for each: the toasts
    /// kept are those `retain_unexpired` keeps for the times read.
    pub fn cleanup_toasts(&mut self)
        ensures
            kept(*old(self), *final(self), Touched { toasts: true, ..untouched() }),
            exists|elapsed: Seq<u128>|
                elapsed.len() == old(self).toasts@.len() && #[trigger] unexpired_toasts(
                    old(self).toasts@,
                    elapsed,
                ) == final(self).toasts@,
    {
        let n = self.toasts.len();
        let mut elapsed: Vec<u128> = Vec::new();
        let mut i: usize = 0;
        while i < n
            invariant
                n == self.toasts@.len(),
                i <= n,
                elapsed@.len() == i,
            decreases n - i,
        {
            elapsed.push(nanos_since(&self.toasts[i].created_at));
            i = i + 1;
        }
        let mut toasts: Vec<Toast> = Vec::new();
        std::mem::swap(&mut toasts, &mut self.toasts);
        self.toasts = retain_unexpired(toasts, &elapsed);
    }

    /// Takes the device at index `i` out, to be put back with `put_device`.
    fn take_device(&mut self, i: usize) -> (d: DeviceState)
        requires
            i < old(self).devices@.len(),
        ensures
            d == old(self).devices@[i as int],
            final(self).devices@ == old(self).devices@.remove(i as int),
            kept(*old(self), *final(self), Touched { devices: true, ..untouched() }),
    {
        self.devices.remove(i)
    }

    /// Puts a device back at index `i`.
    fn put_device(&mut self, i: usize, d: DeviceState)
        requires
            i <= old(self).devices@.len(),
        ensures
            final(self).devices@ == old(self).devices@.insert(i as int, d),
            kept(*old(self), *final(self), Touched { devices: true, ..untouched() }),
    {
        self.devices.insert(i, d);
    }
}

/// A device changed into `x` at index `i` and nothing else changed.
proof fn lemma_changed_at(
    o: Seq<DeviceState>,
    i: int,
    x: DeviceState,
    rel: spec_fn(DeviceState, DeviceState) -> bool,
)
    requires
        unique_ids(o),
        0 <= i < o.len(),
        rel(o[i], x),
        x.id@ == o[i].id@,
    ensures
        changed_where(o, o.update(i, x), o[i].id@, rel),
        unique_ids(o.update(i, x)),
{
    lemma_only_match(o, i);
    let n = o.update(i, x);
    assert forall|a: int, b: int|
        0 <= a < n.len() && 0 <= b < n.len() && a != b implies #[trigger] n[a].id@ != #[trigger] n[b].id@ by {
        assert(o[a].id@ != o[b].id@);
    }
}

/// Without a device of that identifier, nothing changes.
proof fn lemma_changed_nowhere(
    o: Seq<DeviceState>,
    id: Seq<char>,
    rel: spec_fn(DeviceState, DeviceState) -> bool,
)
    requires
        !has_id(o, id),
    ensures
        changed_where(o, o, id, rel),
{
    assert forall|i: int| 0 <= i < o.len() implies !(#[trigger] o[i].id@ == id) by {}
}

/// A device starts connecting.
pub open spec fn connecting_change() -> spec_fn(DeviceState, DeviceState) -> bool {
    |a: DeviceState, b: DeviceState| b == (DeviceState { connection: ConnectionState::Connecting, ..a })
}

/// A device is connected: it records the connection time and takes the
/// name, kind and signal strength that the connection reported.
pub open spec fn connected_change(
    name: Option<String>,
    device_type: Option<DeviceType>,
    rssi: Option<i16>,
) -> spec_fn(DeviceState, DeviceState) -> bool {
    |a: DeviceState, b: DeviceState|
        {
            &&& b.connected_at is Some
            &&& b == (DeviceState {
                connection: ConnectionState::Connected,
                connected_at: b.connected_at,
                name: if name is Some {
                    name
                } else {
                    a.name
                },
                device_type: if device_type is Some {
                    device_type
                } else {
                    a.device_type
                },
                rssi: if rssi is Some {
                    rssi
                } else {
                    a.rssi
                },
                ..a
            })
        }
}

/// A device is disconnected.
pub open spec fn disconnected_change() -> spec_fn(DeviceState, DeviceState) -> bool {
    |a: DeviceState, b: DeviceState|
        b == (DeviceState { connection: ConnectionState::Disconnected, connected_at: None, ..a })
}

/// A connection failed with this error.
pub open spec fn failed_change(error: String) -> spec_fn(DeviceState, DeviceState) -> bool {
    |a: DeviceState, b: DeviceState| b == (DeviceState { connection: ConnectionState::Error(error), ..a })
}

/// A history sync started, of `total` records when known.
pub open spec fn sync_started_change(total: Option<u16>) -> spec_fn(DeviceState, DeviceState) -> bool {
    |a: DeviceState, b: DeviceState|
        b == (DeviceState {
            syncing_history: true,
            sync_progress: Some(
                (
                    0usize,
                    match total {
                        Some(t) => t as usize,
                        None => 0usize,
                    },
                ),
            ),
            ..a
        })
}

/// Stored history was loaded.
pub open spec fn history_loaded_change(records: Vec<HistoryRecord>) -> spec_fn(DeviceState, DeviceState) -> bool {
    |a: DeviceState, b: DeviceState| b == (DeviceState { history: records, syncing_history: false, ..a })
}

/// A history sync finished; the sync time is recorded.
pub open spec fn history_synced_change() -> spec_fn(DeviceState, DeviceState) -> bool {
    |a: DeviceState, b: DeviceState|
        {
            &&& b.last_sync is Some
            &&& b == (DeviceState {
                syncing_history: false,
                sync_progress: None,
                last_sync: b.last_sync,
                ..a
            })
        }
}

/// A history sync stopped on an error.
pub open spec fn sync_failed_change() -> spec_fn(DeviceState, DeviceState) -> bool {
    |a: DeviceState, b: DeviceState| b == (DeviceState { syncing_history: false, sync_progress: None, ..a })
}

/// The measurement interval changed; the current reading shows it.
pub open spec fn interval_change(secs: u16) -> spec_fn(DeviceState, DeviceState) -> bool {
    |a: DeviceState, b: DeviceState|
        b == (DeviceState {
            reading: match a.reading {
                Some(r) => Some(CurrentReading { interval: secs, ..r }),
                None => None,
            },
            ..a
        })
}

/// The device was renamed (or its name cleared).
pub open spec fn renamed_change(alias: Option<String>) -> spec_fn(DeviceState, DeviceState) -> bool {
    |a: DeviceState, b: DeviceState| b == (DeviceState { name: alias, ..a })
}

/// History sync progress.
pub open spec fn progress_change(downloaded: usize, total: usize) -> spec_fn(DeviceState, DeviceState) -> bool {
    |a: DeviceState, b: DeviceState| b == (DeviceState { sync_progress: Some((downloaded, total)), ..a })
}

/// Background polling started or stopped.
pub open spec fn polling_change(interval: Option<u64>) -> spec_fn(DeviceState, DeviceState) -> bool {
    |a: DeviceState, b: DeviceState| b == (DeviceState { background_polling: interval, ..a })
}

/// A new signal strength.
pub open spec fn rssi_change(rssi: i16) -> spec_fn(DeviceState, DeviceState) -> bool {
    |a: DeviceState, b: DeviceState| b == (DeviceState { rssi: Some(rssi), ..a })
}

/// The base message, followed by the separator and the suggestion when
/// there is one.
pub open spec fn with_suggestion(base: Seq<char>, sep: Seq<char>, suggestion: Option<String>) -> Seq<char> {
    match suggestion {
        Some(s) => base + sep + s@,
        None => base,
    }
}

/// The message of a failed connection.
pub open spec fn connection_error_text(error: Seq<char>, suggestion: Option<String>) -> Seq<char> {
    match suggestion {
        Some(s) => error + "\n"@ + s@,
        None => "Connection failed: "@ + error,
    }
}

/// The message of a failed reading.
pub open spec fn reading_error_text(id: Seq<char>, error: Seq<char>, suggestion: Option<String>) -> Seq<char> {
    match suggestion {
        Some(s) => id + ": "@ + error + "\n"@ + s@,
        None => "Reading error for "@ + id + ": "@ + error,
    }
}

/// Appends `sep` and the suggestion, when there is one.
fn push_suggestion(s: &mut String, sep: &str, suggestion: &Option<String>)
    ensures
        final(s)@ == with_suggestion(old(s)@, sep@, *suggestion),
{
    match suggestion {
        Some(t) => {
            push_str(s, sep);
            push_str(s, t.as_str());
        },
        None => {},
    }
}

/// `a` followed by `b`.
fn concat(a: &str, b: &str) -> (r: String)
    ensures
        r@ == a@ + b@,
{
    let mut s = String::from_str(a);
    push_str(&mut s, b);
    s
}

/// Only a toast was added.
pub open spec fn toast_only(o: AppState, n: AppState, msg: Seq<char>, kind: ToastType) -> bool {
    &&& toast_added(o.toasts@, n.toasts@, msg, kind)
    &&& kept(o, n, Touched { toasts: true, ..untouched() })
}

impl AppState {
    /// Changes the device with identifier `id`, if there is one, into
    /// `d`; used after taking it out with `take_device`.
    proof fn lemma_put_back(
        o: Seq<DeviceState>,
        n: Seq<DeviceState>,
        i: int,
        d: DeviceState,
        rel: spec_fn(DeviceState, DeviceState) -> bool,
    )
        requires
            unique_ids(o),
            0 <= i < o.len(),
            n == o.remove(i).insert(i, d),
            rel(o[i], d),
            d.id@ == o[i].id@,
        ensures
            changed_where(o, n, o[i].id@, rel),
            unique_ids(n),
    {
        assert(n =~= o.update(i, d));
        lemma_changed_at(o, i, d, rel);
    }
}

/// A change of one device that an event asks for.
#[derive(Debug)]
pub enum DeviceUpdate {
    Connecting,
    Connected { name: Option<String>, device_type: Option<DeviceType>, rssi: Option<i16> },
    Disconnected,
    Failed(String),
    SyncStarted(Option<u16>),
    HistoryLoaded(Vec<HistoryRecord>),
    HistorySynced,
    SyncFailed,
    Interval(u16),
    Renamed(Option<String>),
    Progress(usize, usize),
    Polling(Option<u64>),
    Rssi(i16),
}

/// How a device changes under an update.
pub open spec fn update_rel(u: DeviceUpdate) -> spec_fn(DeviceState, DeviceState) -> bool {
    match u {
        DeviceUpdate::Connecting => connecting_change(),
        DeviceUpdate::Connected { name, device_type, rssi } => connected_change(name, device_type, rssi),
        DeviceUpdate::Disconnected => disconnected_change(),
        DeviceUpdate::Failed(error) => failed_change(error),
        DeviceUpdate::SyncStarted(total) => sync_started_change(total),
        DeviceUpdate::HistoryLoaded(records) => history_loaded_change(records),
        DeviceUpdate::HistorySynced => history_synced_change(),
        DeviceUpdate::SyncFailed => sync_failed_change(),
        DeviceUpdate::Interval(secs) => interval_change(secs),
        DeviceUpdate::Renamed(alias) => renamed_change(alias),
        DeviceUpdate::Progress(downloaded, total) => progress_change(downloaded, total),
        DeviceUpdate::Polling(interval) => polling_change(interval),
        DeviceUpdate::Rssi(rssi) => rssi_change(rssi),
    }
}

/// Applies an update to a device (reading the clock for the connection
/// and sync times).
#[verifier::rlimit(30)]
fn apply_update(d: DeviceState, u: DeviceUpdate) -> (r: DeviceState)
    ensures
        (update_rel(u))(d, r),
        r.id == d.id,
{
    let mut d = d;
    match u {
        DeviceUpdate::Connecting => {
            d.connection = ConnectionState::Connecting;
        },
        DeviceUpdate::Connected { name, device_type, rssi } => {
            d.connection = ConnectionState::Connected;
            d.connected_at = Some(instant_now());
            if name.is_some() {
                d.name = name;
            }
            if device_type.is_some() {
                d.device_type = device_type;
            }
            if rssi.is_some() {
                d.rssi = rssi;
            }
        },
        DeviceUpdate::Disconnected => {
            d.connection = ConnectionState::Disconnected;
            d.connected_at = None;
        },
        DeviceUpdate::Failed(error) => {
            d.connection = ConnectionState::Error(error);
        },
        DeviceUpdate::SyncStarted(total) => {
            d.syncing_history = true;
            let t: usize = match total {
                Some(t) => t as usize,
                None => 0,
            };
            d.sync_progress = Some((0, t));
        },
        DeviceUpdate::HistoryLoaded(records) => {
            d.history = records;
            d.syncing_history = false;
        },
        DeviceUpdate::HistorySynced => {
            d.syncing_history = false;
            d.sync_progress = None;
            d.last_sync = Some(now_utc());
        },
        DeviceUpdate::SyncFailed => {
            d.syncing_history = false;
            d.sync_progress = None;
        },
        DeviceUpdate::Interval(secs) => {
            d.reading = match d.reading {
                Some(r) => Some(CurrentReading { interval: secs, ..r }),
                None => None,
            };
        },
        DeviceUpdate::Renamed(alias) => {
            d.name = alias;
        },
        DeviceUpdate::Progress(downloaded, total) => {
            d.sync_progress = Some((downloaded, total));
        },
        DeviceUpdate::Polling(interval) => {
            d.background_polling = interval;
        },
        DeviceUpdate::Rssi(rssi) => {
            d.rssi = Some(rssi);
        },
    }
    d
}

impl AppState {
    /// Applies an update to the device with identifier `id`, if known.
    pub fn update_device(&mut self, id: &str, u: DeviceUpdate)
        requires
            old(self).wf(),
        ensures
            final(self).wf(),
            changed_where(old(self).devices@, final(self).devices@, id@, update_rel(u)),
            kept(*old(self), *final(self), Touched { devices: true, ..untouched() }),
    {
        let ghost o = self.devices@;
        match find_device(&self.devices, id) {
            Some(i) => {
                let d = self.take_device(i);
                let d2 = apply_update(d, u);
                self.put_device(i, d2);
                proof {
                    Self::lemma_put_back(o, self.devices@, i as int, d2, update_rel(u));
                }
            },
            None => {
                proof {
                    lemma_changed_nowhere(o, id@, update_rel(u));
                }
            },
        }
    }
}

/// The view of an optional string.
pub open spec fn opt_view(o: Option<String>) -> Option<Seq<char>> {
    match o {
        Some(s) => Some(s@),
        None => None,
    }
}

/// The name a device is shown under: its name, or its identifier.
pub open spec fn shown_name(d: DeviceState) -> Seq<char> {
    match d.name {
        Some(n) => n@,
        None => d.id@,
    }
}

/// `b` is the fresh state of the discovered device `d`.
pub open spec fn discovered_state(b: DeviceState, d: DiscoveredDevice) -> bool {
    &&& b.id@ == d.identifier@
    &&& opt_view(b.name) == opt_view(d.name)
    &&& b.device_type == d.device_type
    &&& b.rssi == d.rssi
    &&& b.connection is Disconnected
    &&& b.reading is None
    &&& b.previous_reading is None
    &&& b.history@.len() == 0
    &&& !b.syncing_history
    &&& b.sync_progress is None
    &&& !b.reading_from_cache
    &&& b.background_polling is None
    &&& b.connected_at is None
    &&& b.last_sync is None
    &&& b.session_stats == empty_stats()
}

/// `b` is the state of the cached device `c`.
pub open spec fn cached_state(b: DeviceState, c: CachedDevice) -> bool {
    &&& b.id@ == c.id@
    &&& opt_view(b.name) == opt_view(c.name)
    &&& b.device_type == c.device_type
    &&& b.rssi is None
    &&& b.connection is Disconnected
    &&& b.reading == c.reading
    &&& b.previous_reading is None
    &&& b.history@.len() == 0
    &&& !b.syncing_history
    &&& b.sync_progress is None
    &&& b.reading_from_cache == c.reading is Some
    &&& b.background_polling is None
    &&& b.connected_at is None
    &&& b.last_sync == c.last_sync
    &&& b.session_stats == empty_stats()
}

/// `n` is `mid` with the discovered device `d` appended, unless a device
/// with its identifier is already known.
pub open spec fn added_discovered(mid: Seq<DeviceState>, d: DiscoveredDevice, n: Seq<DeviceState>) -> bool {
    if has_id(mid, d.identifier@) {
        n == mid
    } else {
        &&& n.len() == mid.len() + 1
        &&& n.drop_last() == mid
        &&& discovered_state(n.last(), d)
    }
}

/// `trace` lists the devices after each of the discovered devices `inc` was
/// added in order to `o` (each unless its identifier is already known),
/// ending with `n`.
pub open spec fn discovered_trace(
    o: Seq<DeviceState>,
    inc: Seq<DiscoveredDevice>,
    trace: Seq<Seq<DeviceState>>,
    n: Seq<DeviceState>,
) -> bool {
    &&& trace.len() == inc.len() + 1
    &&& trace[0] == o
    &&& trace.last() == n
    &&& forall|k: int| 0 <= k < inc.len() ==> added_discovered(#[trigger] trace[k], inc[k], trace[k + 1])
}

/// `n` is `o` after adding the discovered devices in order, each unless its
/// identifier is already known.
pub open spec fn merged_discovered(o: Seq<DeviceState>, inc: Seq<DiscoveredDevice>, n: Seq<DeviceState>) -> bool {
    exists|trace: Seq<Seq<DeviceState>>| #[trigger] discovered_trace(o, inc, trace, n)
}

/// `n` is `mid` with the cached device `c` appended, unless a device with
/// its identifier is already known.
pub open spec fn added_cached(mid: Seq<DeviceState>, c: CachedDevice, n: Seq<DeviceState>) -> bool {
    if has_id(mid, c.id@) {
        n == mid
    } else {
        &&& n.len() == mid.len() + 1
        &&& n.drop_last() == mid
        &&& cached_state(n.last(), c)
    }
}

/// `trace` lists the devices after each of the cached devices `inc` was
/// added in order to `o` (each unless its identifier is already known),
/// ending with `n`.
pub open spec fn cached_trace(
    o: Seq<DeviceState>,
    inc: Seq<CachedDevice>,
    trace: Seq<Seq<DeviceState>>,
    n: Seq<DeviceState>,
) -> bool {
    &&& trace.len() == inc.len() + 1
    &&& trace[0] == o
    &&& trace.last() == n
    &&& forall|k: int| 0 <= k < inc.len() ==> added_cached(#[trigger] trace[k], inc[k], trace[k + 1])
}

/// `n` is `o` after adding the cached devices in order, each unless its
/// identifier is already known.
pub open spec fn merged_cached(o: Seq<DeviceState>, inc: Seq<CachedDevice>, n: Seq<DeviceState>) -> bool {
    exists|trace: Seq<Seq<DeviceState>>| #[trigger] cached_trace(o, inc, trace, n)
}

/// Borrows the text of an optional string.
fn opt_str(o: &Option<String>) -> (r: Option<&str>)
    ensures
        match *o {
            Some(s) => r matches Some(t) && t@ == s@,
            None => r is None,
        },
{
    match o {
        Some(s) => Some(s.as_str()),
        None => None,
    }
}

impl AppState {
    /// Adds the discovered devices that are not known yet.
    #[verifier::rlimit(30)]
    fn merge_discovered(&mut self, inc: &Vec<DiscoveredDevice>)
        requires
            old(self).wf(),
        ensures
            final(self).wf(),
            merged_discovered(old(self).devices@, inc@, final(self).devices@),
            final(self).devices@.len() >= old(self).devices@.len(),
            final(self).devices@.take(old(self).devices@.len() as int) == old(self).devices@,
            kept(*old(self), *final(self), Touched { devices: true, ..untouched() }),
    {
        let ghost o = self.devices@;
        let n = inc.len();
        let mut i: usize = 0;
        let ghost mut trace: Seq<Seq<DeviceState>> = seq![o];
        assert(inc@.take(0) =~= Seq::<DiscoveredDevice>::empty());
        assert(self.devices@.take(o.len() as int) =~= o);
        while i < n
            invariant
                n == inc@.len(),
                i <= n,
                self.wf(),
                discovered_trace(o, inc@.take(i as int), trace, self.devices@),
                self.devices@.len() >= o.len(),
                self.devices@.take(o.len() as int) == o,
                o == old(self).devices@,
                kept(*old(self), *self, Touched { devices: true, ..untouched() }),
            decreases n - i,
        {
            let d = &inc[i];
            let ghost mid = self.devices@;
            let found = find_device(&self.devices, d.identifier.as_str());
            if found.is_none() {
                let nd = DeviceState::from_discovered(
                    d.identifier.as_str(),
                    opt_str(&d.name),
                    d.device_type,
                    d.rssi,
                );
                self.devices.push(nd);
                proof {
                    assert(self.devices@.drop_last() =~= mid);
                    assert(self.devices@.take(o.len() as int) =~= mid.take(o.len() as int));
                    assert forall|a: int, b: int|
                        0 <= a < self.devices@.len() && 0 <= b < self.devices@.len() && a
                            != b implies #[trigger] self.devices@[a].id@
                        != #[trigger] self.devices@[b].id@ by {
                        if a < mid.len() && b < mid.len() {
                            assert(mid[a].id@ != mid[b].id@);
                        } else if a < mid.len() {
                            assert(mid[a].id@ != d.identifier@);
                        } else {
                            assert(mid[b].id@ != d.identifier@);
                        }
                    }
                }
            }
            proof {
                assert(inc@.take(i + 1).drop_last() =~= inc@.take(i as int));
                assert(inc@.take(i + 1).last() == inc@[i as int]);
                if let Some(j) = found {
                    assert(mid[j as int].id@ == d.identifier@);
                    assert(has_id(mid, d.identifier@));
                }
                assert(added_discovered(mid, inc@[i as int], self.devices@));
                let old_trace = trace;
                trace = trace.push(self.devices@);
                assert forall|k: int| 0 <= k < i + 1 implies added_discovered(
                    #[trigger] trace[k],
                    inc@.take(i + 1)[k],
                    trace[k + 1],
                ) by {
                    if k < i {
                        assert(old_trace[k] == trace[k] && old_trace[k + 1] == trace[k + 1]);
                        assert(inc@.take(i as int)[k] == inc@.take(i + 1)[k]);
                    }
                }
            }
            i = i + 1;
        }
        assert(inc@.take(n as int) =~= inc@);
        assert(discovered_trace(o, inc@, trace, self.devices@));
    }

    /// Adds the cached devices that are not known yet.
    #[verifier::rlimit(30)]
    fn merge_cached(&mut self, inc: &Vec<CachedDevice>)
        requires
            old(self).wf(),
        ensures
            final(self).wf(),
            merged_cached(old(self).devices@, inc@, final(self).devices@),
            final(self).devices@.len() >= old(self).devices@.len(),
            final(self).devices@.take(old(self).devices@.len() as int) == old(self).devices@,
            kept(*old(self), *final(self), Touched { devices: true, ..untouched() }),
    {
        let ghost o = self.devices@;
        let n = inc.len();
        let mut i: usize = 0;
        let ghost mut trace: Seq<Seq<DeviceState>> = seq![o];
        assert(inc@.take(0) =~= Seq::<CachedDevice>::empty());
        assert(self.devices@.take(o.len() as int) =~= o);
        while i < n
            invariant
                n == inc@.len(),
                i <= n,
                self.wf(),
                cached_trace(o, inc@.take(i as int), trace, self.devices@),
                self.devices@.len() >= o.len(),
                self.devices@.take(o.len() as int) == o,
                o == old(self).devices@,
                kept(*old(self), *self, Touched { devices: true, ..untouched() }),
            decreases n - i,
        {
            let c = &inc[i];
            let ghost mid = self.devices@;
            let found = find_device(&self.devices, c.id.as_str());
            if found.is_none() {
                let nd = DeviceState::from_cached(
                    c.id.as_str(),
                    opt_str(&c.name),
                    c.device_type,
                    c.reading,
                    c.last_sync,
                );
                self.devices.push(nd);
                proof {
                    assert(self.devices@.drop_last() =~= mid);
                    assert(self.devices@.take(o.len() as int) =~= mid.take(o.len() as int));
                    assert forall|a: int, b: int|
                        0 <= a < self.devices@.len() && 0 <= b < self.devices@.len() && a
                            != b implies #[trigger] self.devices@[a].id@
                        != #[trigger] self.devices@[b].id@ by {
                        if a < mid.len() && b < mid.len() {
                            assert(mid[a].id@ != mid[b].id@);
                        } else if a < mid.len() {
                            assert(mid[a].id@ != c.id@);
                        } else {
                            assert(mid[b].id@ != c.id@);
                        }
                    }
                }
            }
            proof {
                assert(inc@.take(i + 1).drop_last() =~= inc@.take(i as int));
                assert(inc@.take(i + 1).last() == inc@[i as int]);
                if let Some(j) = found {
                    assert(mid[j as int].id@ == c.id@);
                    assert(has_id(mid, c.id@));
                }
                assert(added_cached(mid, inc@[i as int], self.devices@));
                let old_trace = trace;
                trace = trace.push(self.devices@);
                assert forall|k: int| 0 <= k < i + 1 implies added_cached(
                    #[trigger] trace[k],
                    inc@.take(i + 1)[k],
                    trace[k + 1],
                ) by {
                    if k < i {
                        assert(old_trace[k] == trace[k] && old_trace[k + 1] == trace[k + 1]);
                        assert(inc@.take(i as int)[k] == inc@.take(i + 1)[k]);
                    }
                }
            }
            i = i + 1;
        }
        assert(inc@.take(n as int) =~= inc@);
        assert(cached_trace(o, inc@, trace, self.devices@));
    }
}

/// The selection after the device at `pos` is removed: cleared when it was
/// that device, moved down by one when it was after it.
pub open spec fn adjusted_selection(sel: Option<usize>, pos: int) -> Option<usize> {
    match sel {
        Some(s) => if s == pos {
            None
        } else if s > pos {
            Some((s - 1) as usize)
        } else {
            Some(s)
        },
        None => None,
    }
}

/// The comparison indices after the device at `pos` is removed: that
/// device leaves the comparison, later ones move down by one.
pub open spec fn reindexed(refs: Seq<usize>, pos: int) -> Seq<usize>
    decreases refs.len(),
{
    if refs.len() == 0 {
        refs
    } else {
        let rest = reindexed(refs.drop_last(), pos);
        let x = refs.last();
        if x == pos {
            rest
        } else if x > pos {
            rest.push((x - 1) as usize)
        } else {
            rest.push(x)
        }
    }
}

/// The index of the device with this identifier (meaningful when there is one).
pub open spec fn index_of_id(devices: Seq<DeviceState>, id: Seq<char>) -> int {
    choose|i: int| 0 <= i < devices.len() && #[trigger] devices[i].id@ == id
}

/// `n` is `o` without the monitored devices at this address.
pub open spec fn without_address(o: Seq<ServiceMonitoredDevice>, address: Seq<char>) -> Seq<ServiceMonitoredDevice>
    decreases o.len(),
{
    if o.len() == 0 {
        o
    } else {
        let rest = without_address(o.drop_last(), address);
        if o.last().address@ == address {
            rest
        } else {
            rest.push(o.last())
        }
    }
}

/// The first monitored device with the same address as `dev` is replaced by
/// it; without one, nothing changes.
pub open spec fn replaced_first(
    o: Seq<ServiceMonitoredDevice>,
    n: Seq<ServiceMonitoredDevice>,
    dev: ServiceMonitoredDevice,
) -> bool {
    if exists|i: int| 0 <= i < o.len() && #[trigger] o[i].address@ == dev.address@ {
        exists|i: int|
            0 <= i < o.len() && #[trigger] o[i].address@ == dev.address@ && (forall|j: int|
                0 <= j < i ==> #[trigger] o[j].address@ != dev.address@) && n == o.update(i, dev)
    } else {
        n == o
    }
}

/// A device with its history sync reset, as after a cancellation.
pub open spec fn sync_reset(d: DeviceState) -> DeviceState {
    DeviceState { syncing_history: false, sync_progress: None, ..d }
}

impl AppState {
    /// Forgets the device at `pos`: removes it, fixes the selection and the
    /// comparison, and returns its shown name.
    #[verifier::rlimit(30)]
    fn forget_at(&mut self, pos: usize) -> (name: String)
        requires
            old(self).wf(),
            pos < old(self).devices@.len(),
        ensures
            final(self).wf(),
            name@ == shown_name(old(self).devices@[pos as int]),
            final(self).devices@ == old(self).devices@.remove(pos as int),
            final(self).selected_device == adjusted_selection(old(self).selected_device, pos as int),
            final(self).comparison_devices@ == reindexed(old(self).comparison_devices@, pos as int),
            kept(*old(self), *final(self), Touched { devices: true, selection: true, ..untouched() }),
    {
        let name = String::from_str(self.devices[pos].display_name());
        let ghost o = self.devices@;
        let _ = self.devices.remove(pos);
        proof {
            assert forall|a: int, b: int|
                0 <= a < self.devices@.len() && 0 <= b < self.devices@.len() && a
                    != b implies #[trigger] self.devices@[a].id@ != #[trigger] self.devices@[b].id@ by {
                let oa = if a < pos { a } else { a + 1 };
                let ob = if b < pos { b } else { b + 1 };
                assert(self.devices@[a] == o[oa] && self.devices@[b] == o[ob]);
            }
        }
        match self.selected_device {
            Some(s) => {
                if s == pos {
                    self.selected_device = None;
                } else if s > pos {
                    self.selected_device = Some(s - 1);
                }
            },
            None => {},
        }
        let old_refs = &self.comparison_devices;
        let m = old_refs.len();
        let mut refs: Vec<usize> = Vec::new();
        let mut k: usize = 0;
        assert(old_refs@.take(0) =~= Seq::<usize>::empty());
        while k < m
            invariant
                m == old_refs@.len(),
                k <= m,
                refs@ == reindexed(old_refs@.take(k as int), pos as int),
                indices_below(refs@, self.devices@.len()),
                indices_below(old_refs@, self.devices@.len() + 1),
                self.devices@.len() + 1 == o.len(),
                pos < o.len(),
            decreases m - k,
        {
            let x = old_refs[k];
            proof {
                assert(old_refs@.take(k + 1).drop_last() =~= old_refs@.take(k as int));
                assert(old_refs@.take(k + 1).last() == x);
            }
            if x != pos {
                if x > pos {
                    refs.push(x - 1);
                } else {
                    refs.push(x);
                }
            }
            k = k + 1;
        }
        assert(old_refs@.take(m as int) =~= old_refs@);
        self.comparison_devices = refs;
        name
    }
}

impl AppState {
    /// Replaces the first monitored device with the same address.
    fn replace_monitored(&mut self, dev: ServiceMonitoredDevice)
        ensures
            replaced_first(old(self).service_monitored_devices@, final(self).service_monitored_devices@, dev),
            kept(*old(self), *final(self), Touched { monitored: true, ..untouched() }),
            final(self).service_config_loading == old(self).service_config_loading,
            final(self).add_device_dialog == old(self).add_device_dialog,
    {
        let ghost o = self.service_monitored_devices@;
        let n = self.service_monitored_devices.len();
        let mut i: usize = 0;
        while i < n
            invariant
                n == o.len(),
                i <= n,
                self.service_monitored_devices@ == o,
                o == old(self).service_monitored_devices@,
                forall|j: int| 0 <= j < i ==> #[trigger] o[j].address@ != dev.address@,
                kept(*old(self), *self, Touched { monitored: true, ..untouched() }),
                self.service_config_loading == old(self).service_config_loading,
                self.add_device_dialog == old(self).add_device_dialog,
            decreases n - i,
        {
            if str_eq(self.service_monitored_devices[i].address.as_str(), dev.address.as_str()) {
                let ghost ii = i as int;
                let _ = self.service_monitored_devices.remove(i);
                self.service_monitored_devices.insert(i, dev);
                proof {
                    assert(self.service_monitored_devices@ =~= o.update(ii, dev));
                    assert(o[ii].address@ == dev.address@);
                }
                return;
            }
            i = i + 1;
        }
        proof {
            assert forall|j: int| 0 <= j < o.len() implies !(#[trigger] o[j].address@ == dev.address@) by {}
        }
    }

    /// Removes the monitored devices at this address.
    fn remove_monitored(&mut self, address: &str)
        ensures
            final(self).service_monitored_devices@ == without_address(
                old(self).service_monitored_devices@,
                address@,
            ),
            kept(*old(self), *final(self), Touched { monitored: true, ..untouched() }),
            final(self).service_config_loading == old(self).service_config_loading,
            final(self).add_device_dialog == old(self).add_device_dialog,
    {
        let mut rest: Vec<ServiceMonitoredDevice> = Vec::new();
        std::mem::swap(&mut rest, &mut self.service_monitored_devices);
        let ghost o = rest@;
        let mut kept_devices: Vec<ServiceMonitoredDevice> = Vec::new();
        let n = rest.len();
        let mut i: usize = 0;
        assert(o.take(0) =~= Seq::<ServiceMonitoredDevice>::empty());
        while i < n
            invariant
                n == o.len(),
                i <= n,
                rest@ == o.skip(i as int),
                kept_devices@ == without_address(o.take(i as int), address@),
            decreases n - i,
        {
            let d = rest.remove(0);
            proof {
                assert(o.take(i + 1).drop_last() =~= o.take(i as int));
                assert(o.take(i + 1).last() == d);
                assert(rest@ =~= o.skip(i + 1));
            }
            if !str_eq(d.address.as_str(), address) {
                kept_devices.push(d);
            }
            i = i + 1;
        }
        assert(o.take(n as int) =~= o);
        self.service_monitored_devices = kept_devices;
    }

    /// Resets the history sync of every device.
    fn reset_syncs(&mut self)
        requires
            old(self).wf(),
        ensures
            final(self).wf(),
            final(self).devices@ == old(self).devices@.map_values(|d: DeviceState| sync_reset(d)),
            kept(*old(self), *final(self), Touched { devices: true, ..untouched() }),
    {
        let ghost o = self.devices@;
        let n = self.devices.len();
        let mut i: usize = 0;
        while i < n
            invariant
                n == o.len(),
                i <= n,
                self.devices@.len() == n,
                forall|j: int| 0 <= j < i ==> #[trigger] self.devices@[j] == sync_reset(o[j]),
                forall|j: int| i <= j < n ==> #[trigger] self.devices@[j] == o[j],
                kept(*old(self), *self, Touched { devices: true, ..untouched() }),
                o == old(self).devices@,
                unique_ids(o),
            decreases n - i,
        {
            let mut d = self.take_device(i);
            d.syncing_history = false;
            d.sync_progress = None;
            self.put_device(i, d);
            i = i + 1;
        }
        assert(self.devices@ =~= o.map_values(|d: DeviceState| sync_reset(d)));
        assert forall|a: int, b: int|
            0 <= a < self.devices@.len() && 0 <= b < self.devices@.len() && a
                != b implies #[trigger] self.devices@[a].id@ != #[trigger] self.devices@[b].id@ by {
            assert(o[a].id@ != o[b].id@);
        }
    }
}

/// The name under which a reading of device `id` is reported: the shown
/// name of the device when it is known, else the identifier.
pub open spec fn reported_name(devices: Seq<DeviceState>, id: Seq<char>) -> Seq<char> {
    if has_id(devices, id) {
        shown_name(devices[index_of_id(devices, id)])
    } else {
        id
    }
}

/// A device takes a live reading.
pub open spec fn reading_change(reading: CurrentReading) -> spec_fn(DeviceState, DeviceState) -> bool {
    |a: DeviceState, b: DeviceState|
        b == (DeviceState {
            session_stats: stats_after(a.session_stats, reading.co2, reading.radon),
            previous_reading: a.reading,
            reading: Some(reading),
            reading_from_cache: false,
            ..a
        })
}

/// The statistics of the device with identifier `id` can take the reading.
pub open spec fn reading_fits(devices: Seq<DeviceState>, id: Seq<char>, reading: CurrentReading) -> bool {
    forall|i: int|
        0 <= i < devices.len() && #[trigger] devices[i].id@ == id ==> devices[i].session_stats.can_add(
            reading,
        )
}

/// What a new reading does: the device takes it, the reading is to be
/// logged, the tray shows the device and, for a CO2 reading, records it and
/// may ask for a notification, the alert log checks it, and the status
/// line says so.
pub open spec fn reading_post(
    o: AppState,
    n: AppState,
    id: Seq<char>,
    reading: CurrentReading,
    eff: EventEffects,
) -> bool {
    let name = reported_name(o.devices@, id);
    &&& changed_where(o.devices@, n.devices@, id, reading_change(reading))
    &&& eff.log_reading matches Some((lid, lr)) && lid@ == id && lr == reading
    &&& eff.refresh_tray
    &&& eff.sync_percent is None
    &&& n.tray.device_name matches Some(nm) && nm@ == name
    &&& if reading.co2 > 0 {
        &&& threshold_checked(
            TrayState { device_name: n.tray.device_name, ..o.tray },
            n.tray,
            eff.notification,
            reading.co2,
            name,
        )
        &&& co2_alert_checked(o.alerts, n.alerts, name, reading.co2)
    } else {
        &&& n.tray == (TrayState { device_name: n.tray.device_name, ..o.tray })
        &&& eff.notification is None
        &&& n.alerts == o.alerts
    }
    &&& n.status@ == "Reading updated"@
    &&& kept(o, n, Touched { devices: true, status: true, alerts: true, tray: true, ..untouched() })
}

impl AppState {
    /// Takes a new reading of a device.
    #[verifier::rlimit(30)]
    fn on_reading(&mut self, device_id: String, reading: CurrentReading) -> (eff: EventEffects)
        requires
            old(self).wf(),
            reading_fits(old(self).devices@, device_id@, reading),
        ensures
            final(self).wf(),
            reading_post(*old(self), *final(self), device_id@, reading, eff),
    {
        let ghost o = self.devices@;
        let idx = find_device(&self.devices, device_id.as_str());
        let name: String = match idx {
            Some(i) => String::from_str(self.devices[i].display_name()),
            None => String::from_str(device_id.as_str()),
        };
        proof {
            if let Some(i) = idx {
                assert(has_id(o, device_id@));
                let j = index_of_id(o, device_id@);
                lemma_only_match(o, i as int);
                assert(j == i);
            }
        }
        match idx {
            Some(i) => {
                let mut d = self.take_device(i);
                d.update_reading(reading);
                self.put_device(i, d);
                proof {
                    Self::lemma_put_back(o, self.devices@, i as int, d, reading_change(reading));
                }
            },
            None => {
                proof {
                    lemma_changed_nowhere(o, device_id@, reading_change(reading));
                }
            },
        }
        self.tray.device_name = Some(String::from_str(name.as_str()));
        let notification = if reading.co2 > 0 {
            check_co2_threshold(&mut self.tray, reading.co2, name.as_str())
        } else {
            None
        };
        if reading.co2 > 0 {
            self.alerts.check_and_log_co2_alert(name.as_str(), reading.co2);
        }
        self.status = String::from_str("Reading updated");
        EventEffects {
            log_reading: Some((device_id, reading)),
            notification,
            refresh_tray: true,
            sync_percent: None,
        }
    }
}

/// The events whose handling has a precondition: a reading must fit the
/// device's session statistics.
pub open spec fn event_fits(o: AppState, e: SensorEvent) -> bool {
    match e {
        SensorEvent::ReadingUpdated { device_id, reading } => reading_fits(o.devices@, device_id@, reading),
        _ => true,
    }
}

/// Only the device with identifier `id` changed as `rel` says, and the
/// parts marked in `t` besides the devices.
pub open spec fn device_post(
    o: AppState,
    n: AppState,
    id: String,
    rel: spec_fn(DeviceState, DeviceState) -> bool,
    t: Touched,
) -> bool {
    &&& changed_where(o.devices@, n.devices@, id@, rel)
    &&& kept(o, n, Touched { devices: true, ..t })
}

/// What handling an event does to the state `o`, giving `n`, and which
/// effects `eff` it asks for.
pub open spec fn event_post(o: AppState, n: AppState, e: SensorEvent, eff: EventEffects) -> bool {
    match e {
        SensorEvent::ReadingUpdated { device_id, reading } => reading_post(
            o,
            n,
            device_id@,
            reading,
            eff,
        ),
        SensorEvent::HistorySyncProgress { device_id, downloaded, total } => {
            &&& device_post(o, n, device_id, progress_change(downloaded, total), untouched())
            &&& eff.sync_percent == (if total > 0 {
                Some((downloaded, total))
            } else {
                None
            })
            &&& eff.log_reading is None && eff.notification is None && !eff.refresh_tray
        },
        _ => no_effects(eff) && state_post(o, n, e),
    }
}

/// What the events other than a reading and sync progress do to the state.
pub open spec fn state_post(o: AppState, n: AppState, e: SensorEvent) -> bool {
    match e {
        SensorEvent::ScanStarted => {
            &&& n.scanning
            &&& n.status@ == "Scanning for devices..."@
            &&& kept(o, n, Touched { status: true, scanning: true, ..untouched() })
        },
        SensorEvent::ScanComplete { devices } => {
            &&& !n.scanning
            &&& n.status@ == "Found "@ + dec(devices@.len()) + " device(s)"@
            &&& merged_discovered(o.devices@, devices@, n.devices@)
            &&& n.selected_device == (if o.selected_device is None && n.devices@.len() > 0 {
                Some(0usize)
            } else {
                o.selected_device
            })
            &&& n.comparison_devices@ == o.comparison_devices@
            &&& kept(
                o,
                n,
                Touched { devices: true, selection: true, status: true, scanning: true, ..untouched() },
            )
        },
        SensorEvent::ScanError { error } => {
            &&& !n.scanning
            &&& toast_added(o.toasts@, n.toasts@, "Scan failed: "@ + error@, ToastType::Error)
            &&& kept(o, n, Touched { scanning: true, toasts: true, ..untouched() })
        },
        SensorEvent::DeviceConnecting { device_id } => {
            &&& device_post(o, n, device_id, connecting_change(), Touched { status: true, ..untouched() })
            &&& n.status@ == "Connecting..."@
        },
        SensorEvent::DeviceConnected { device_id, name, device_type, rssi } => {
            &&& device_post(
                o,
                n,
                device_id,
                connected_change(name, device_type, rssi),
                Touched { status: true, ..untouched() },
            )
            &&& n.status@ == "Connected"@
        },
        SensorEvent::DeviceDisconnected { device_id } => device_post(
            o,
            n,
            device_id,
            disconnected_change(),
            untouched(),
        ),
        SensorEvent::ConnectionError { device_id, error, suggestion } => {
            &&& device_post(o, n, device_id, failed_change(error), Touched { toasts: true, ..untouched() })
            &&& toast_added(
                o.toasts@,
                n.toasts@,
                connection_error_text(error@, suggestion),
                ToastType::Error,
            )
        },
        SensorEvent::ReadingError { device_id, error, suggestion } => toast_only(
            o,
            n,
            reading_error_text(device_id@, error@, suggestion),
            ToastType::Error,
        ),
        SensorEvent::HistorySyncStarted { device_id, total_records } => {
            &&& device_post(
                o,
                n,
                device_id,
                sync_started_change(total_records),
                Touched { status: true, ..untouched() },
            )
            &&& n.status@ == match total_records {
                Some(t) => "Syncing "@ + dec(t as nat) + " records..."@,
                None => "Syncing history..."@,
            }
        },
        SensorEvent::HistoryLoaded { device_id, records } => device_post(
            o,
            n,
            device_id,
            history_loaded_change(records),
            untouched(),
        ),
        SensorEvent::HistorySynced { device_id, count } => {
            &&& device_post(o, n, device_id, history_synced_change(), Touched { status: true, ..untouched() })
            &&& n.status@ == "Synced "@ + dec(count as nat) + " history records"@
        },
        SensorEvent::HistorySyncError { device_id, error, suggestion } => {
            &&& device_post(o, n, device_id, sync_failed_change(), Touched { toasts: true, ..untouched() })
            &&& toast_added(
                o.toasts@,
                n.toasts@,
                with_suggestion("History sync failed: "@ + error@, "\n"@, suggestion),
                ToastType::Error,
            )
        },
        SensorEvent::IntervalChanged { device_id, interval_secs } => {
            &&& device_post(
                o,
                n,
                device_id,
                interval_change(interval_secs),
                Touched { status: true, updating_settings: true, ..untouched() },
            )
            &&& !n.updating_settings
            &&& n.status@ == "Interval set to "@ + dec((interval_secs / 60) as nat) + " min"@
        },
        SensorEvent::IntervalError { device_id, error, suggestion } => settings_failed(
            o,
            n,
            with_suggestion("Failed to set interval: "@ + error@, ". "@, suggestion),
        ),
        SensorEvent::BluetoothRangeChanged { device_id, extended } => {
            &&& !n.updating_settings
            &&& n.status@ == "Bluetooth range set to "@ + (if extended {
                "Extended"@
            } else {
                "Standard"@
            })
            &&& kept(o, n, Touched { status: true, updating_settings: true, ..untouched() })
        },
        SensorEvent::BluetoothRangeError { device_id, error, suggestion } => settings_failed(
            o,
            n,
            with_suggestion("Failed to set BT range: "@ + error@, ". "@, suggestion),
        ),
        SensorEvent::SmartHomeChanged { device_id, enabled } => {
            &&& !n.updating_settings
            &&& toast_added(
                o.toasts@,
                n.toasts@,
                "Smart Home "@ + (if enabled {
                    "enabled"@
                } else {
                    "disabled"@
                }),
                ToastType::Success,
            )
            &&& kept(o, n, Touched { toasts: true, updating_settings: true, ..untouched() })
        },
        SensorEvent::SmartHomeError { device_id, error, suggestion } => settings_failed(
            o,
            n,
            with_suggestion("Failed to set Smart Home: "@ + error@, ". "@, suggestion),
        ),
        SensorEvent::AliasChanged { device_id, alias } => {
            &&& device_post(
                o,
                n,
                device_id,
                renamed_change(alias),
                Touched { toasts: true, updating_settings: true, ..untouched() },
            )
            &&& !n.updating_settings
            &&& toast_added(
                o.toasts@,
                n.toasts@,
                if alias is Some {
                    "Device renamed"@
                } else {
                    "Device name cleared"@
                },
                ToastType::Success,
            )
        },
        SensorEvent::AliasError { device_id, error } => settings_failed(
            o,
            n,
            "Failed to rename: "@ + error@,
        ),
        SensorEvent::CachedDataLoaded { devices } => {
            &&& merged_cached(o.devices@, devices@, n.devices@)
            &&& if n.devices@.len() > 0 {
                &&& n.status@ == "Loaded "@ + dec(n.devices@.len()) + " cached device(s)"@
                &&& n.selected_device == (if o.selected_device is None {
                    Some(0usize)
                } else {
                    o.selected_device
                })
            } else {
                n.status@ == o.status@ && n.selected_device == o.selected_device
            }
            &&& n.comparison_devices@ == o.comparison_devices@
            &&& kept(o, n, Touched { devices: true, selection: true, status: true, ..untouched() })
        },
        SensorEvent::ServiceStatusRefreshed { reachable, collector_running, uptime_seconds, devices } => {
            &&& !n.service_refreshing
            &&& n.service_status matches Some(st) && st.reachable == reachable && st.collector_running
                == collector_running && st.uptime_seconds == uptime_seconds && st.devices == devices
            &&& n.status@ == (if reachable {
                if collector_running {
                    "Service running"@
                } else {
                    "Service stopped"@
                }
            } else {
                "Service not reachable"@
            })
            &&& kept(o, n, Touched { service_status: true, status: true, ..untouched() })
        },
        SensorEvent::ServiceStatusError { error } => {
            &&& !n.service_refreshing
            &&& n.service_status matches Some(st) && !st.reachable && !st.collector_running
                && st.uptime_seconds is None && st.devices@.len() == 0
            &&& n.status@ == "Service not reachable"@
            &&& toast_added(o.toasts@, n.toasts@, "Service error: "@ + error@, ToastType::Error)
            &&& kept(
                o,
                n,
                Touched { service_status: true, status: true, toasts: true, ..untouched() },
            )
        },
        SensorEvent::ServiceCollectorStarted => toast_only(
            o,
            n,
            "Collector started"@,
            ToastType::Success,
        ),
        SensorEvent::ServiceCollectorStopped => toast_only(
            o,
            n,
            "Collector stopped"@,
            ToastType::Success,
        ),
        SensorEvent::ServiceCollectorError { error } => toast_only(
            o,
            n,
            "Collector error: "@ + error@,
            ToastType::Error,
        ),
        SensorEvent::SystemServiceStatus { installed, running } => {
            &&& !n.system_service_pending
            &&& n.system_service_status == Some((installed, running))
            &&& kept(o, n, Touched { system_service: true, ..untouched() })
        },
        SensorEvent::SystemServiceInstalled => system_service_done(
            o,
            n,
            Some((true, false)),
            "Service installed successfully"@,
            ToastType::Success,
        ),
        SensorEvent::SystemServiceUninstalled => system_service_done(
            o,
            n,
            Some((false, false)),
            "Service uninstalled"@,
            ToastType::Success,
        ),
        SensorEvent::SystemServiceStarted => system_service_done(
            o,
            n,
            match o.system_service_status {
                Some((installed, _)) => Some((installed, true)),
                None => None,
            },
            "Service started"@,
            ToastType::Success,
        ),
        SensorEvent::SystemServiceStopped => system_service_done(
            o,
            n,
            match o.system_service_status {
                Some((installed, _)) => Some((installed, false)),
                None => None,
            },
            "Service stopped"@,
            ToastType::Success,
        ),
        SensorEvent::SystemServiceError { operation, error } => system_service_done(
            o,
            n,
            o.system_service_status,
            "Service "@ + operation@ + " failed: "@ + error@,
            ToastType::Error,
        ),
        SensorEvent::ServiceConfigFetched { devices } => {
            &&& !n.service_config_loading
            &&& n.service_monitored_devices@ == devices@
            &&& n.add_device_dialog == o.add_device_dialog
            &&& kept(o, n, Touched { monitored: true, ..untouched() })
        },
        SensorEvent::ServiceConfigError { error } => {
            &&& !n.service_config_loading
            &&& n.service_monitored_devices@ == o.service_monitored_devices@
            &&& n.add_device_dialog == o.add_device_dialog
            &&& toast_added(o.toasts@, n.toasts@, "Config error: "@ + error@, ToastType::Error)
            &&& kept(o, n, Touched { monitored: true, toasts: true, ..untouched() })
        },
        SensorEvent::ServiceDeviceAdded { device } => {
            &&& n.add_device_dialog is None
            &&& n.service_monitored_devices@ == o.service_monitored_devices@.push(device)
            &&& n.service_config_loading == o.service_config_loading
            &&& toast_added(o.toasts@, n.toasts@, "Device added to monitoring"@, ToastType::Success)
            &&& kept(o, n, Touched { monitored: true, toasts: true, ..untouched() })
        },
        SensorEvent::ServiceDeviceUpdated { device } => {
            &&& replaced_first(o.service_monitored_devices@, n.service_monitored_devices@, device)
            &&& n.service_config_loading == o.service_config_loading
            &&& n.add_device_dialog == o.add_device_dialog
            &&& toast_added(o.toasts@, n.toasts@, "Device updated"@, ToastType::Success)
            &&& kept(o, n, Touched { monitored: true, toasts: true, ..untouched() })
        },
        SensorEvent::ServiceDeviceRemoved { address } => {
            &&& n.service_monitored_devices@ == without_address(o.service_monitored_devices@, address@)
            &&& n.service_config_loading == o.service_config_loading
            &&& n.add_device_dialog == o.add_device_dialog
            &&& toast_added(
                o.toasts@,
                n.toasts@,
                "Device removed from monitoring"@,
                ToastType::Success,
            )
            &&& kept(o, n, Touched { monitored: true, toasts: true, ..untouched() })
        },
        SensorEvent::ServiceDeviceError { operation, error } => toast_only(
            o,
            n,
            "Device "@ + operation@ + " failed: "@ + error@,
            ToastType::Error,
        ),
        SensorEvent::DeviceForgotten { device_id } => if has_id(o.devices@, device_id@) {
            let pos = index_of_id(o.devices@, device_id@);
            &&& n.devices@ == o.devices@.remove(pos)
            &&& n.selected_device == adjusted_selection(o.selected_device, pos)
            &&& n.comparison_devices@ == reindexed(o.comparison_devices@, pos)
            &&& toast_added(
                o.toasts@,
                n.toasts@,
                "Forgot device: "@ + shown_name(o.devices@[pos]),
                ToastType::Success,
            )
            &&& kept(o, n, Touched { devices: true, selection: true, toasts: true, ..untouched() })
        } else {
            kept(o, n, untouched())
        },
        SensorEvent::ForgetDeviceError { device_id, error } => toast_only(
            o,
            n,
            "Failed to forget device "@ + device_id@ + ": "@ + error@,
            ToastType::Error,
        ),
        SensorEvent::OperationCancelled { operation } => {
            &&& !n.scanning
            &&& n.devices@ == o.devices@.map_values(|d: DeviceState| sync_reset(d))
            &&& n.status@ == operation@ + " cancelled"@
            &&& kept(o, n, Touched { devices: true, scanning: true, status: true, ..untouched() })
        },
        SensorEvent::BackgroundPollingStarted { device_id, interval_secs } => {
            &&& device_post(
                o,
                n,
                device_id,
                polling_change(Some(interval_secs)),
                Touched { toasts: true, ..untouched() },
            )
            &&& toast_added(
                o.toasts@,
                n.toasts@,
                "Auto-refresh enabled (every "@ + dec(interval_secs as nat) + "s)"@,
                ToastType::Success,
            )
        },
        SensorEvent::BackgroundPollingStopped { device_id } => {
            &&& device_post(
                o,
                n,
                device_id,
                polling_change(None),
                Touched { toasts: true, ..untouched() },
            )
            &&& toast_added(o.toasts@, n.toasts@, "Auto-refresh disabled"@, ToastType::Success)
        },
        SensorEvent::SignalStrengthUpdate { device_id, rssi } => device_post(
            o,
            n,
            device_id,
            rssi_change(rssi),
            untouched(),
        ),
        _ => true,
    }
}

/// A settings change on the device failed: the wait ends and an error
/// toast says why.
pub open spec fn settings_failed(o: AppState, n: AppState, msg: Seq<char>) -> bool {
    &&& !n.updating_settings
    &&& toast_added(o.toasts@, n.toasts@, msg, ToastType::Error)
    &&& kept(o, n, Touched { toasts: true, updating_settings: true, ..untouched() })
}

/// A system service operation ended with this status and toast.
pub open spec fn system_service_done(
    o: AppState,
    n: AppState,
    status: Option<(bool, bool)>,
    msg: Seq<char>,
    kind: ToastType,
) -> bool {
    &&& !n.system_service_pending
    &&& n.system_service_status == status
    &&& toast_added(o.toasts@, n.toasts@, msg, kind)
    &&& kept(o, n, Touched { system_service: true, toasts: true, ..untouched() })
}

impl EventEffects {
    /// No effect.
    pub fn none() -> (r: Self)
        ensures
            no_effects(r),
    {
        EventEffects { log_reading: None, notification: None, refresh_tray: false, sync_percent: None }
    }
}

impl AppState {
    /// Scans, cached devices, cancellation and forgetting.
    #[verifier::rlimit(30)]
    fn on_list_event(&mut self, e: SensorEvent) -> (eff: EventEffects)
        requires
            old(self).wf(),
            e is ScanStarted || e is ScanComplete || e is ScanError || e is CachedDataLoaded
                || e is OperationCancelled || e is DeviceForgotten || e is ForgetDeviceError
                || e is ReadingError,
        ensures
            final(self).wf(),
            event_post(*old(self), *final(self), e, eff),
    {
        match e {
            SensorEvent::ScanStarted => {
                self.scanning = true;
                self.status = String::from_str("Scanning for devices...");
            },
            SensorEvent::ScanComplete { devices } => {
                self.scanning = false;
                let mut s = String::from_str("Found ");
                push_dec(&mut s, devices.len() as u64);
                push_str(&mut s, " device(s)");
                self.status = s;
                self.merge_discovered(&devices);
                if self.selected_device.is_none() && self.devices.len() > 0 {
                    self.selected_device = Some(0);
                }
            },
            SensorEvent::ScanError { error } => {
                self.scanning = false;
                self.add_toast(concat("Scan failed: ", error.as_str()), ToastType::Error);
            },
            SensorEvent::ReadingError { device_id, error, suggestion } => {
                let msg = match &suggestion {
                    Some(t) => {
                        let mut m = concat(device_id.as_str(), ": ");
                        push_str(&mut m, error.as_str());
                        push_str(&mut m, "\n");
                        push_str(&mut m, t.as_str());
                        m
                    },
                    None => {
                        let mut m = concat("Reading error for ", device_id.as_str());
                        push_str(&mut m, ": ");
                        push_str(&mut m, error.as_str());
                        m
                    },
                };
                self.add_toast(msg, ToastType::Error);
            },
            SensorEvent::CachedDataLoaded { devices } => {
                self.merge_cached(&devices);
                if self.devices.len() > 0 {
                    let mut s = String::from_str("Loaded ");
                    push_dec(&mut s, self.devices.len() as u64);
                    push_str(&mut s, " cached device(s)");
                    self.status = s;
                    if self.selected_device.is_none() {
                        self.selected_device = Some(0);
                    }
                }
            },
            SensorEvent::OperationCancelled { operation } => {
                self.scanning = false;
                self.reset_syncs();
                self.status = concat(operation.as_str(), " cancelled");
            },
            SensorEvent::DeviceForgotten { device_id } => {
                let ghost o = self.devices@;
                match find_device(&self.devices, device_id.as_str()) {
                    Some(pos) => {
                        proof {
                            lemma_only_match(o, pos as int);
                            let j = index_of_id(o, device_id@);
                            assert(o[pos as int].id@ == device_id@);
                            assert(j == pos);
                        }
                        let name = self.forget_at(pos);
                        self.add_toast(concat("Forgot device: ", name.as_str()), ToastType::Success);
                    },
                    None => {},
                }
            },
            SensorEvent::ForgetDeviceError { device_id, error } => {
                let mut m = concat("Failed to forget device ", device_id.as_str());
                push_str(&mut m, ": ");
                push_str(&mut m, error.as_str());
                self.add_toast(m, ToastType::Error);
            },
            _ => {},
        }
        EventEffects::none()
    }
}

impl AppState {
    /// Connection, history and polling events of one device.
    #[verifier::rlimit(30)]
    fn on_device_event(&mut self, e: SensorEvent) -> (eff: EventEffects)
        requires
            old(self).wf(),
            e is DeviceConnecting || e is DeviceConnected || e is DeviceDisconnected
                || e is ConnectionError || e is HistorySyncStarted || e is HistoryLoaded
                || e is HistorySynced || e is HistorySyncError || e is HistorySyncProgress
                || e is BackgroundPollingStarted || e is BackgroundPollingStopped
                || e is SignalStrengthUpdate,
        ensures
            final(self).wf(),
            event_post(*old(self), *final(self), e, eff),
    {
        let mut eff = EventEffects::none();
        match e {
            SensorEvent::DeviceConnecting { device_id } => {
                self.update_device(device_id.as_str(), DeviceUpdate::Connecting);
                self.status = String::from_str("Connecting...");
            },
            SensorEvent::DeviceConnected { device_id, name, device_type, rssi } => {
                self.update_device(
                    device_id.as_str(),
                    DeviceUpdate::Connected { name, device_type, rssi },
                );
                self.status = String::from_str("Connected");
            },
            SensorEvent::DeviceDisconnected { device_id } => {
                self.update_device(device_id.as_str(), DeviceUpdate::Disconnected);
            },
            SensorEvent::ConnectionError { device_id, error, suggestion } => {
                let msg = match &suggestion {
                    Some(t) => {
                        let mut m = concat(error.as_str(), "\n");
                        push_str(&mut m, t.as_str());
                        m
                    },
                    None => concat("Connection failed: ", error.as_str()),
                };
                self.update_device(device_id.as_str(), DeviceUpdate::Failed(error));
                self.add_toast(msg, ToastType::Error);
            },
            SensorEvent::HistorySyncStarted { device_id, total_records } => {
                self.update_device(device_id.as_str(), DeviceUpdate::SyncStarted(total_records));
                match total_records {
                    Some(t) => {
                        let mut s = String::from_str("Syncing ");
                        push_dec(&mut s, t as u64);
                        push_str(&mut s, " records...");
                        self.status = s;
                    },
                    None => {
                        self.status = String::from_str("Syncing history...");
                    },
                }
            },
            SensorEvent::HistoryLoaded { device_id, records } => {
                self.update_device(device_id.as_str(), DeviceUpdate::HistoryLoaded(records));
            },
            SensorEvent::HistorySynced { device_id, count } => {
                self.update_device(device_id.as_str(), DeviceUpdate::HistorySynced);
                let mut s = String::from_str("Synced ");
                push_dec(&mut s, count as u64);
                push_str(&mut s, " history records");
                self.status = s;
            },
            SensorEvent::HistorySyncError { device_id, error, suggestion } => {
                self.update_device(device_id.as_str(), DeviceUpdate::SyncFailed);
                let mut m = concat("History sync failed: ", error.as_str());
                push_suggestion(&mut m, "\n", &suggestion);
                self.add_toast(m, ToastType::Error);
            },
            SensorEvent::HistorySyncProgress { device_id, downloaded, total } => {
                self.update_device(device_id.as_str(), DeviceUpdate::Progress(downloaded, total));
                if total > 0 {
                    eff.sync_percent = Some((downloaded, total));
                }
            },
            SensorEvent::BackgroundPollingStarted { device_id, interval_secs } => {
                self.update_device(device_id.as_str(), DeviceUpdate::Polling(Some(interval_secs)));
                let mut m = String::from_str("Auto-refresh enabled (every ");
                push_dec(&mut m, interval_secs);
                push_str(&mut m, "s)");
                self.add_toast(m, ToastType::Success);
            },
            SensorEvent::BackgroundPollingStopped { device_id } => {
                self.update_device(device_id.as_str(), DeviceUpdate::Polling(None));
                self.add_toast(String::from_str("Auto-refresh disabled"), ToastType::Success);
            },
            SensorEvent::SignalStrengthUpdate { device_id, rssi } => {
                self.update_device(device_id.as_str(), DeviceUpdate::Rssi(rssi));
            },
            _ => {},
        }
        eff
    }

    /// Results of settings changes on a device.
    #[verifier::rlimit(30)]
    fn on_settings_event(&mut self, e: SensorEvent) -> (eff: EventEffects)
        requires
            old(self).wf(),
            e is IntervalChanged || e is IntervalError || e is BluetoothRangeChanged
                || e is BluetoothRangeError || e is SmartHomeChanged || e is SmartHomeError
                || e is AliasChanged || e is AliasError,
        ensures
            final(self).wf(),
            event_post(*old(self), *final(self), e, eff),
    {
        match e {
            SensorEvent::IntervalChanged { device_id, interval_secs } => {
                self.updating_settings = false;
                let mut s = String::from_str("Interval set to ");
                push_dec(&mut s, (interval_secs / 60) as u64);
                push_str(&mut s, " min");
                self.status = s;
                self.update_device(device_id.as_str(), DeviceUpdate::Interval(interval_secs));
            },
            SensorEvent::IntervalError { device_id, error, suggestion } => {
                self.updating_settings = false;
                let mut m = concat("Failed to set interval: ", error.as_str());
                push_suggestion(&mut m, ". ", &suggestion);
                self.add_toast(m, ToastType::Error);
            },
            SensorEvent::BluetoothRangeChanged { device_id, extended } => {
                self.updating_settings = false;
                let range = if extended {
                    "Extended"
                } else {
                    "Standard"
                };
                self.status = concat("Bluetooth range set to ", range);
            },
            SensorEvent::BluetoothRangeError { device_id, error, suggestion } => {
                self.updating_settings = false;
                let mut m = concat("Failed to set BT range: ", error.as_str());
                push_suggestion(&mut m, ". ", &suggestion);
                self.add_toast(m, ToastType::Error);
            },
            SensorEvent::SmartHomeChanged { device_id, enabled } => {
                self.updating_settings = false;
                let mode = if enabled {
                    "enabled"
                } else {
                    "disabled"
                };
                self.add_toast(concat("Smart Home ", mode), ToastType::Success);
            },
            SensorEvent::SmartHomeError { device_id, error, suggestion } => {
                self.updating_settings = false;
                let mut m = concat("Failed to set Smart Home: ", error.as_str());
                push_suggestion(&mut m, ". ", &suggestion);
                self.add_toast(m, ToastType::Error);
            },
            SensorEvent::AliasChanged { device_id, alias } => {
                self.updating_settings = false;
                let renamed = alias.is_some();
                self.update_device(device_id.as_str(), DeviceUpdate::Renamed(alias));
                let msg = if renamed {
                    "Device renamed"
                } else {
                    "Device name cleared"
                };
                self.add_toast(String::from_str(msg), ToastType::Success);
            },
            SensorEvent::AliasError { device_id, error } => {
                self.updating_settings = false;
                self.add_toast(concat("Failed to rename: ", error.as_str()), ToastType::Error);
            },
            _ => {},
        }
        EventEffects::none()
    }
}

impl AppState {
    /// Events of the background service, the system service and the
    /// monitored devices.
    #[verifier::rlimit(30)]
    fn on_service_event(&mut self, e: SensorEvent) -> (eff: EventEffects)
        requires
            old(self).wf(),
            e is ServiceStatusRefreshed || e is ServiceStatusError || e is ServiceCollectorStarted
                || e is ServiceCollectorStopped || e is ServiceCollectorError
                || e is SystemServiceStatus || e is SystemServiceInstalled
                || e is SystemServiceUninstalled || e is SystemServiceStarted
                || e is SystemServiceStopped || e is SystemServiceError
                || e is ServiceConfigFetched || e is ServiceConfigError || e is ServiceDeviceAdded
                || e is ServiceDeviceUpdated || e is ServiceDeviceRemoved || e is ServiceDeviceError,
        ensures
            final(self).wf(),
            event_post(*old(self), *final(self), e, eff),
    {
        match e {
            SensorEvent::ServiceStatusRefreshed { reachable, collector_running, uptime_seconds, devices } => {
                self.service_refreshing = false;
                self.service_status = Some(
                    ServiceState {
                        reachable,
                        collector_running,
                        uptime_seconds,
                        devices,
                        fetched_at: instant_now(),
                    },
                );
                let text = if reachable {
                    if collector_running {
                        "Service running"
                    } else {
                        "Service stopped"
                    }
                } else {
                    "Service not reachable"
                };
                self.status = String::from_str(text);
            },
            SensorEvent::ServiceStatusError { error } => {
                self.service_refreshing = false;
                self.service_status = Some(
                    ServiceState {
                        reachable: false,
                        collector_running: false,
                        uptime_seconds: None,
                        devices: Vec::new(),
                        fetched_at: instant_now(),
                    },
                );
                self.status = String::from_str("Service not reachable");
                self.add_toast(concat("Service error: ", error.as_str()), ToastType::Error);
            },
            SensorEvent::ServiceCollectorStarted => {
                self.add_toast(String::from_str("Collector started"), ToastType::Success);
            },
            SensorEvent::ServiceCollectorStopped => {
                self.add_toast(String::from_str("Collector stopped"), ToastType::Success);
            },
            SensorEvent::ServiceCollectorError { error } => {
                self.add_toast(concat("Collector error: ", error.as_str()), ToastType::Error);
            },
            SensorEvent::SystemServiceStatus { installed, running } => {
                self.system_service_pending = false;
                self.system_service_status = Some((installed, running));
            },
            SensorEvent::SystemServiceInstalled => {
                self.system_service_pending = false;
                self.system_service_status = Some((true, false));
                self.add_toast(String::from_str("Service installed successfully"), ToastType::Success);
            },
            SensorEvent::SystemServiceUninstalled => {
                self.system_service_pending = false;
                self.system_service_status = Some((false, false));
                self.add_toast(String::from_str("Service uninstalled"), ToastType::Success);
            },
            SensorEvent::SystemServiceStarted => {
                self.system_service_pending = false;
                if let Some((installed, _)) = self.system_service_status {
                    self.system_service_status = Some((installed, true));
                }
                self.add_toast(String::from_str("Service started"), ToastType::Success);
            },
            SensorEvent::SystemServiceStopped => {
                self.system_service_pending = false;
                if let Some((installed, _)) = self.system_service_status {
                    self.system_service_status = Some((installed, false));
                }
                self.add_toast(String::from_str("Service stopped"), ToastType::Success);
            },
            SensorEvent::SystemServiceError { operation, error } => {
                self.system_service_pending = false;
                let mut m = concat("Service ", operation.as_str());
                push_str(&mut m, " failed: ");
                push_str(&mut m, error.as_str());
                self.add_toast(m, ToastType::Error);
            },
            SensorEvent::ServiceConfigFetched { devices } => {
                self.service_config_loading = false;
                self.service_monitored_devices = devices;
            },
            SensorEvent::ServiceConfigError { error } => {
                self.service_config_loading = false;
                self.add_toast(concat("Config error: ", error.as_str()), ToastType::Error);
            },
            SensorEvent::ServiceDeviceAdded { device } => {
                self.add_device_dialog = None;
                self.service_monitored_devices.push(device);
                self.add_toast(String::from_str("Device added to monitoring"), ToastType::Success);
            },
            SensorEvent::ServiceDeviceUpdated { device } => {
                self.replace_monitored(device);
                self.add_toast(String::from_str("Device updated"), ToastType::Success);
            },
            SensorEvent::ServiceDeviceRemoved { address } => {
                self.remove_monitored(address.as_str());
                self.add_toast(
                    String::from_str("Device removed from monitoring"),
                    ToastType::Success,
                );
            },
            SensorEvent::ServiceDeviceError { operation, error } => {
                let mut m = concat("Device ", operation.as_str());
                push_str(&mut m, " failed: ");
                push_str(&mut m, error.as_str());
                self.add_toast(m, ToastType::Error);
            },
            _ => {},
        }
        EventEffects::none()
    }

    /// Whether `handle_event` can take this event: a reading must fit the
    /// session statistics of its device.
    pub fn can_handle(&self, e: &SensorEvent) -> (r: bool)
        requires
            self.wf(),
        ensures
            r == event_fits(*self, *e),
    {
        match e {
            SensorEvent::ReadingUpdated { device_id, reading } => {
                match find_device(&self.devices, device_id.as_str()) {
                    Some(i) => {
                        proof {
                            lemma_only_match(self.devices@, i as int);
                        }
                        self.devices[i].session_stats.fits(reading)
                    },
                    None => true,
                }
            },
            _ => true,
        }
    }

    /// Follows one event of the background worker and returns what the
    /// caller has to do.
    #[verifier::rlimit(30)]
    pub fn handle_event(&mut self, e: SensorEvent) -> (eff: EventEffects)
        requires
            old(self).wf(),
            event_fits(*old(self), e),
        ensures
            final(self).wf(),
            event_post(*old(self), *final(self), e, eff),
    {
        match e {
            SensorEvent::ReadingUpdated { device_id, reading } => self.on_reading(device_id, reading),
            SensorEvent::ScanStarted | SensorEvent::ScanComplete { .. } | SensorEvent::ScanError { .. }
            | SensorEvent::CachedDataLoaded { .. } | SensorEvent::OperationCancelled { .. }
            | SensorEvent::DeviceForgotten { .. } | SensorEvent::ForgetDeviceError { .. }
            | SensorEvent::ReadingError { .. } => self.on_list_event(e),
            SensorEvent::IntervalChanged { .. } | SensorEvent::IntervalError { .. }
            | SensorEvent::BluetoothRangeChanged { .. } | SensorEvent::BluetoothRangeError { .. }
            | SensorEvent::SmartHomeChanged { .. } | SensorEvent::SmartHomeError { .. }
            | SensorEvent::AliasChanged { .. } | SensorEvent::AliasError { .. } => self.on_settings_event(e),
            SensorEvent::ServiceStatusRefreshed { .. } | SensorEvent::ServiceStatusError { .. }
            | SensorEvent::ServiceCollectorStarted | SensorEvent::ServiceCollectorStopped
            | SensorEvent::ServiceCollectorError { .. } | SensorEvent::SystemServiceStatus { .. }
            | SensorEvent::SystemServiceInstalled | SensorEvent::SystemServiceUninstalled
            | SensorEvent::SystemServiceStarted | SensorEvent::SystemServiceStopped
            | SensorEvent::SystemServiceError { .. } | SensorEvent::ServiceConfigFetched { .. }
            | SensorEvent::ServiceConfigError { .. } | SensorEvent::ServiceDeviceAdded { .. }
            | SensorEvent::ServiceDeviceUpdated { .. } | SensorEvent::ServiceDeviceRemoved { .. }
            | SensorEvent::ServiceDeviceError { .. } => self.on_service_event(e),
            _ => self.on_device_event(e),
        }
    }
}

/// The devices that a list of indices points at.
pub open spec fn referenced(devices: Seq<DeviceState>, refs: Seq<usize>) -> Seq<DeviceState> {
    refs.map_values(|i: usize| devices[i as int])
}

/// The indices other than `pos`, in order.
pub open spec fn dropping(refs: Seq<usize>, pos: int) -> Seq<usize>
    decreases refs.len(),
{
    if refs.len() == 0 {
        refs
    } else if refs.last() == pos {
        dropping(refs.drop_last(), pos)
    } else {
        dropping(refs.drop_last(), pos).push(refs.last())
    }
}

/// Forgetting a device keeps the comparison and the selection on the same
/// devices: the compared devices afterwards are the ones compared before,
/// without the forgotten one and in the same order, and the selection
/// still shows the device it showed, unless that device was forgotten.
pub proof fn lemma_forget_keeps_references(
    devices: Seq<DeviceState>,
    pos: int,
    refs: Seq<usize>,
    selected: Option<usize>,
)
    requires
        0 <= pos < devices.len(),
        indices_below(refs, devices.len()),
        selected matches Some(s) ==> s < devices.len(),
    ensures
        referenced(devices.remove(pos), reindexed(refs, pos)) == referenced(
            devices,
            dropping(refs, pos),
        ),
        indices_below(reindexed(refs, pos), (devices.len() - 1) as nat),
        match selected {
            Some(s) => if s == pos {
                adjusted_selection(selected, pos) is None
            } else {
                adjusted_selection(selected, pos) matches Some(t) && t < devices.len() - 1
                    && devices.remove(pos)[t as int] == devices[s as int]
            },
            None => adjusted_selection(selected, pos) is None,
        },
    decreases refs.len(),
{
    if refs.len() > 0 {
        let rest = refs.drop_last();
        assert(indices_below(rest, devices.len()));
        lemma_forget_keeps_references(devices, pos, rest, selected);
        let x = refs.last();
        assert(x < devices.len());
        let removed = devices.remove(pos);
        if x != pos {
            let y: int = if x > pos { x - 1 } else { x as int };
            assert(removed[y] == devices[x as int]);
            assert(referenced(removed, reindexed(refs, pos)) =~= referenced(
                removed,
                reindexed(rest, pos),
            ).push(devices[x as int]));
            assert(referenced(devices, dropping(refs, pos)) =~= referenced(
                devices,
                dropping(rest, pos),
            ).push(devices[x as int]));
        }
    } else {
        assert(referenced(devices.remove(pos), reindexed(refs, pos)) =~= Seq::<DeviceState>::empty());
        assert(referenced(devices, dropping(refs, pos)) =~= Seq::<DeviceState>::empty());
    }
}

/// A scan never loses or reorders known devices, adds every device it
/// found, and never adds an identifier twice.
pub proof fn lemma_scan_merge(o: Seq<DeviceState>, inc: Seq<DiscoveredDevice>, n: Seq<DeviceState>)
    requires
        merged_discovered(o, inc, n),
    ensures
        n.len() >= o.len(),
        n.take(o.len() as int) == o,
        forall|k: int| 0 <= k < inc.len() ==> has_id(n, #[trigger] inc[k].identifier@),
        unique_ids(o) ==> unique_ids(n),
{
    let trace = choose|trace: Seq<Seq<DeviceState>>| #[trigger] discovered_trace(o, inc, trace, n);
    lemma_trace_grows(o, inc, trace, n, inc.len() as int);
}

/// The first `t` steps of a scan trace keep what was there and add what
/// they found.
proof fn lemma_trace_grows(
    o: Seq<DeviceState>,
    inc: Seq<DiscoveredDevice>,
    trace: Seq<Seq<DeviceState>>,
    n: Seq<DeviceState>,
    t: int,
)
    requires
        discovered_trace(o, inc, trace, n),
        0 <= t <= inc.len(),
    ensures
        trace[t].len() >= o.len(),
        trace[t].take(o.len() as int) == o,
        forall|k: int| 0 <= k < t ==> has_id(trace[t], #[trigger] inc[k].identifier@),
        unique_ids(o) ==> unique_ids(trace[t]),
    decreases t,
{
    if t == 0 {
        assert(trace[0].take(o.len() as int) =~= o);
    } else {
        lemma_trace_grows(o, inc, trace, n, t - 1);
        let mid = trace[t - 1];
        let next = trace[t];
        assert(added_discovered(mid, inc[t - 1], next));
        if !has_id(mid, inc[t - 1].identifier@) {
            assert(next.take(o.len() as int) =~= mid.take(o.len() as int)) by {
                assert(next.drop_last() == mid);
                assert forall|i: int| 0 <= i < o.len() implies next[i] == mid[i] by {
                    assert(next.drop_last()[i] == next[i]);
                }
            }
            assert forall|k: int| 0 <= k < t implies has_id(next, #[trigger] inc[k].identifier@) by {
                if k < t - 1 {
                    let i = choose|i: int| 0 <= i < mid.len() && #[trigger] mid[i].id@ == inc[k].identifier@;
                    assert(next.drop_last()[i] == next[i]);
                    assert(next[i].id@ == inc[k].identifier@);
                } else {
                    assert(next[next.len() - 1].id@ == inc[k].identifier@);
                }
            }
            if unique_ids(o) {
                assert forall|a: int, b: int|
                    0 <= a < next.len() && 0 <= b < next.len() && a != b implies #[trigger] next[a].id@
                    != #[trigger] next[b].id@ by {
                    if a < mid.len() {
                        assert(next.drop_last()[a] == next[a]);
                    }
                    if b < mid.len() {
                        assert(next.drop_last()[b] == next[b]);
                    }
                    if a < mid.len() && b < mid.len() {
                        assert(mid[a].id@ != mid[b].id@);
                    }
                }
            }
        }
    }
}

} // verus!
