use aranet_cli::device::CurrentReading;
use aranet_cli::helpers::ToastType;
use aranet_cli::session::{
    AppState, CachedDevice, DiscoveredDevice, SensorEvent, ServiceMonitoredDevice,
};
use aranet_cli::tray::TrayState;
use aranet_cli::types::{ConnectionState, DeviceType};

fn discovered(id: &str, name: Option<&str>) -> DiscoveredDevice {
    DiscoveredDevice {
        identifier: id.to_string(),
        name: name.map(|n| n.to_string()),
        device_type: Some(DeviceType::Aranet4),
        rssi: Some(-60),
    }
}

fn reading(co2: u16) -> CurrentReading {
    CurrentReading { co2, humidity: 45, battery: 80, interval: 300, age: 10, radon: None }
}

fn state_with(ids: &[&str]) -> AppState {
    let mut app = AppState::new(TrayState::default());
    let devices = ids.iter().map(|id| discovered(id, None)).collect();
    app.handle_event(SensorEvent::ScanComplete { devices });
    app
}

fn ids(app: &AppState) -> Vec<String> {
    app.devices.iter().map(|d| d.id.clone()).collect()
}

fn last_toast(app: &AppState) -> (String, ToastType) {
    let t = app.toasts.last().expect("a toast");
    (t.message.clone(), t.toast_type)
}

#[test]
fn new_state_is_ready() {
    let app = AppState::new(TrayState::default());
    assert_eq!(app.status, "Ready - Click 'Scan' to discover devices");
    assert!(app.devices.is_empty());
    assert_eq!(app.selected_device, None);
    assert_eq!(app.alerts.max_len(), 100);
}

#[test]
fn scan_started_sets_scanning() {
    let mut app = AppState::new(TrayState::default());
    let eff = app.handle_event(SensorEvent::ScanStarted);
    assert!(app.scanning);
    assert_eq!(app.status, "Scanning for devices...");
    assert!(eff.log_reading.is_none() && eff.notification.is_none() && !eff.refresh_tray);
}

#[test]
fn scan_complete_adds_new_devices_once_and_selects_first() {
    let mut app = AppState::new(TrayState::default());
    app.handle_event(SensorEvent::ScanStarted);
    let devices = vec![discovered("A", Some("Kitchen")), discovered("B", None), discovered("A", Some("Other"))];
    app.handle_event(SensorEvent::ScanComplete { devices });
    assert!(!app.scanning);
    assert_eq!(app.status, "Found 3 device(s)");
    assert_eq!(ids(&app), vec!["A".to_string(), "B".to_string()]);
    assert_eq!(app.devices[0].name.as_deref(), Some("Kitchen"));
    assert_eq!(app.selected_device, Some(0));
    assert!(matches!(app.devices[0].connection, ConnectionState::Disconnected));

    // A second scan keeps the known devices in place and appends the new one.
    app.selected_device = Some(1);
    let devices = vec![discovered("C", None), discovered("B", Some("Renamed"))];
    app.handle_event(SensorEvent::ScanComplete { devices });
    assert_eq!(ids(&app), vec!["A".to_string(), "B".to_string(), "C".to_string()]);
    assert_eq!(app.devices[1].name, None);
    assert_eq!(app.selected_device, Some(1));
}

#[test]
fn scan_error_shows_toast() {
    let mut app = AppState::new(TrayState::default());
    app.handle_event(SensorEvent::ScanStarted);
    app.handle_event(SensorEvent::ScanError { error: "adapter off".to_string() });
    assert!(!app.scanning);
    assert_eq!(last_toast(&app), ("Scan failed: adapter off".to_string(), ToastType::Error));
}

#[test]
fn connection_lifecycle() {
    let mut app = state_with(&["A", "B"]);
    app.handle_event(SensorEvent::DeviceConnecting { device_id: "B".to_string() });
    assert!(matches!(app.devices[1].connection, ConnectionState::Connecting));
    assert!(matches!(app.devices[0].connection, ConnectionState::Disconnected));
    assert_eq!(app.status, "Connecting...");

    app.handle_event(SensorEvent::DeviceConnected {
        device_id: "B".to_string(),
        name: Some("Office".to_string()),
        device_type: None,
        rssi: Some(-50),
    });
    assert!(matches!(app.devices[1].connection, ConnectionState::Connected));
    assert!(app.devices[1].connected_at.is_some());
    assert_eq!(app.devices[1].name.as_deref(), Some("Office"));
    assert_eq!(app.devices[1].device_type, Some(DeviceType::Aranet4));
    assert_eq!(app.devices[1].rssi, Some(-50));
    assert_eq!(app.status, "Connected");

    app.handle_event(SensorEvent::DeviceDisconnected { device_id: "B".to_string() });
    assert!(matches!(app.devices[1].connection, ConnectionState::Disconnected));
    assert!(app.devices[1].connected_at.is_none());
}

#[test]
fn connection_error_messages() {
    let mut app = state_with(&["A"]);
    app.handle_event(SensorEvent::ConnectionError {
        device_id: "A".to_string(),
        error: "timeout".to_string(),
        suggestion: None,
    });
    assert!(matches!(&app.devices[0].connection, ConnectionState::Error(e) if e == "timeout"));
    assert_eq!(last_toast(&app), ("Connection failed: timeout".to_string(), ToastType::Error));

    app.handle_event(SensorEvent::ConnectionError {
        device_id: "A".to_string(),
        error: "timeout".to_string(),
        suggestion: Some("Move closer".to_string()),
    });
    assert_eq!(last_toast(&app).0, "timeout\nMove closer");
}

#[test]
fn reading_updated_updates_device_tray_and_effects() {
    let mut app = state_with(&["A"]);
    app.devices[0].name = Some("Kitchen".to_string());
    app.tray.notifications_enabled = true;
    let eff = app.handle_event(SensorEvent::ReadingUpdated { device_id: "A".to_string(), reading: reading(1200) });
    assert_eq!(app.status, "Reading updated");
    assert_eq!(app.devices[0].reading.map(|r| r.co2), Some(1200));
    assert_eq!(app.devices[0].session_stats.co2_count, 1);
    let (lid, lr) = eff.log_reading.expect("reading to log");
    assert_eq!(lid, "A");
    assert_eq!(lr.co2, 1200);
    assert!(eff.refresh_tray);
    assert_eq!(app.tray.device_name.as_deref(), Some("Kitchen"));
    assert_eq!(app.tray.co2_ppm, Some(1200));
    let n = eff.notification.expect("a notification");
    assert_eq!(n.title, "CO2 Level Poor");
    assert_eq!(n.body, "Kitchen: 1200 ppm - Ventilation recommended");
    assert!(n.is_critical);
    // The alert log has the poor-level alert.
    assert_eq!(app.alerts.len(), 1);
    assert_eq!(app.alerts.get(0).message, "CO2 level poor (1200 ppm) - ventilation recommended");

    // The same level again neither notifies nor logs.
    let eff = app.handle_event(SensorEvent::ReadingUpdated { device_id: "A".to_string(), reading: reading(1300) });
    assert!(eff.notification.is_none());
    assert_eq!(app.alerts.len(), 1);
    assert_eq!(app.devices[0].previous_reading.map(|r| r.co2), Some(1200));
}

#[test]
fn reading_of_unknown_device_uses_identifier() {
    let mut app = AppState::new(TrayState::default());
    let eff = app.handle_event(SensorEvent::ReadingUpdated { device_id: "X".to_string(), reading: reading(0) });
    assert!(app.devices.is_empty());
    assert_eq!(app.tray.device_name.as_deref(), Some("X"));
    assert_eq!(app.tray.co2_ppm, None);
    assert!(eff.notification.is_none());
    assert_eq!(app.alerts.len(), 0);
}

#[test]
fn can_handle_checks_statistics_room() {
    let mut app = state_with(&["A"]);
    let e = SensorEvent::ReadingUpdated { device_id: "A".to_string(), reading: reading(900) };
    assert!(app.can_handle(&e));
    app.devices[0].session_stats.co2_count = u32::MAX;
    assert!(!app.can_handle(&e));
    assert!(app.can_handle(&SensorEvent::ScanStarted));
}

#[test]
fn reading_error_messages() {
    let mut app = AppState::new(TrayState::default());
    app.handle_event(SensorEvent::ReadingError {
        device_id: "A".to_string(),
        error: "bad".to_string(),
        suggestion: None,
    });
    assert_eq!(last_toast(&app).0, "Reading error for A: bad");
    app.handle_event(SensorEvent::ReadingError {
        device_id: "A".to_string(),
        error: "bad".to_string(),
        suggestion: Some("retry".to_string()),
    });
    assert_eq!(last_toast(&app).0, "A: bad\nretry");
}

#[test]
fn history_sync_flow() {
    let mut app = state_with(&["A"]);
    app.handle_event(SensorEvent::HistorySyncStarted { device_id: "A".to_string(), total_records: Some(120) });
    assert!(app.devices[0].syncing_history);
    assert_eq!(app.devices[0].sync_progress, Some((0, 120)));
    assert_eq!(app.status, "Syncing 120 records...");

    let eff = app.handle_event(SensorEvent::HistorySyncProgress { device_id: "A".to_string(), downloaded: 60, total: 120 });
    assert_eq!(app.devices[0].sync_progress, Some((60, 120)));
    assert_eq!(eff.sync_percent, Some((60, 120)));

    let eff = app.handle_event(SensorEvent::HistorySyncProgress { device_id: "A".to_string(), downloaded: 0, total: 0 });
    assert_eq!(eff.sync_percent, None);

    app.handle_event(SensorEvent::HistorySynced { device_id: "A".to_string(), count: 120 });
    assert!(!app.devices[0].syncing_history);
    assert_eq!(app.devices[0].sync_progress, None);
    assert!(app.devices[0].last_sync.is_some());
    assert_eq!(app.status, "Synced 120 history records");

    app.handle_event(SensorEvent::HistorySyncStarted { device_id: "A".to_string(), total_records: None });
    assert_eq!(app.status, "Syncing history...");
    assert_eq!(app.devices[0].sync_progress, Some((0, 0)));
    app.handle_event(SensorEvent::HistorySyncError {
        device_id: "A".to_string(),
        error: "lost".to_string(),
        suggestion: Some("reconnect".to_string()),
    });
    assert!(!app.devices[0].syncing_history);
    assert_eq!(last_toast(&app).0, "History sync failed: lost\nreconnect");
}

#[test]
fn settings_results() {
    let mut app = state_with(&["A"]);
    app.handle_event(SensorEvent::ReadingUpdated { device_id: "A".to_string(), reading: reading(500) });
    app.updating_settings = true;
    app.handle_event(SensorEvent::IntervalChanged { device_id: "A".to_string(), interval_secs: 600 });
    assert!(!app.updating_settings);
    assert_eq!(app.status, "Interval set to 10 min");
    assert_eq!(app.devices[0].reading.map(|r| r.interval), Some(600));

    app.handle_event(SensorEvent::IntervalError {
        device_id: "A".to_string(),
        error: "refused".to_string(),
        suggestion: Some("Try again".to_string()),
    });
    assert_eq!(last_toast(&app).0, "Failed to set interval: refused. Try again");

    app.handle_event(SensorEvent::BluetoothRangeChanged { device_id: "A".to_string(), extended: true });
    assert_eq!(app.status, "Bluetooth range set to Extended");
    app.handle_event(SensorEvent::BluetoothRangeError {
        device_id: "A".to_string(),
        error: "no".to_string(),
        suggestion: None,
    });
    assert_eq!(last_toast(&app).0, "Failed to set BT range: no");

    app.handle_event(SensorEvent::SmartHomeChanged { device_id: "A".to_string(), enabled: false });
    assert_eq!(last_toast(&app), ("Smart Home disabled".to_string(), ToastType::Success));
    app.handle_event(SensorEvent::SmartHomeError {
        device_id: "A".to_string(),
        error: "x".to_string(),
        suggestion: None,
    });
    assert_eq!(last_toast(&app).0, "Failed to set Smart Home: x");

    app.handle_event(SensorEvent::AliasChanged { device_id: "A".to_string(), alias: Some("Den".to_string()) });
    assert_eq!(app.devices[0].name.as_deref(), Some("Den"));
    assert_eq!(last_toast(&app).0, "Device renamed");
    app.handle_event(SensorEvent::AliasChanged { device_id: "A".to_string(), alias: None });
    assert_eq!(app.devices[0].name, None);
    assert_eq!(last_toast(&app).0, "Device name cleared");
    app.handle_event(SensorEvent::AliasError { device_id: "A".to_string(), error: "busy".to_string() });
    assert_eq!(last_toast(&app), ("Failed to rename: busy".to_string(), ToastType::Error));
}

#[test]
fn cached_devices_are_merged() {
    let mut app = state_with(&["A"]);
    app.selected_device = None;
    let devices = vec![
        CachedDevice { id: "A".to_string(), name: Some("dup".to_string()), device_type: None, reading: None, last_sync: None },
        CachedDevice { id: "B".to_string(), name: None, device_type: None, reading: Some(reading(700)), last_sync: None },
    ];
    app.handle_event(SensorEvent::CachedDataLoaded { devices });
    assert_eq!(ids(&app), vec!["A".to_string(), "B".to_string()]);
    assert!(app.devices[1].reading_from_cache);
    assert!(app.devices[1].is_showing_cached_data());
    assert_eq!(app.status, "Loaded 2 cached device(s)");
    assert_eq!(app.selected_device, Some(0));

    let mut empty = AppState::new(TrayState::default());
    empty.handle_event(SensorEvent::CachedDataLoaded { devices: Vec::new() });
    assert_eq!(empty.status, "Ready - Click 'Scan' to discover devices");
    assert_eq!(empty.selected_device, None);
}

#[test]
fn forgetting_keeps_selection_and_comparison_on_same_devices() {
    let mut app = state_with(&["A", "B", "C", "D"]);
    app.selected_device = Some(3);
    app.comparison_devices = vec![0, 1, 3];
    app.handle_event(SensorEvent::DeviceForgotten { device_id: "B".to_string() });
    assert_eq!(ids(&app), vec!["A".to_string(), "C".to_string(), "D".to_string()]);
    assert_eq!(app.selected_device, Some(2));
    assert_eq!(app.devices[2].id, "D");
    assert_eq!(app.comparison_devices, vec![0, 2]);
    assert_eq!(last_toast(&app), ("Forgot device: B".to_string(), ToastType::Success));

    app.handle_event(SensorEvent::DeviceForgotten { device_id: "D".to_string() });
    assert_eq!(app.selected_device, None);
    assert_eq!(app.comparison_devices, vec![0]);

    let toasts = app.toasts.len();
    app.handle_event(SensorEvent::DeviceForgotten { device_id: "zz".to_string() });
    assert_eq!(app.toasts.len(), toasts);
    assert_eq!(ids(&app), vec!["A".to_string(), "C".to_string()]);

    app.handle_event(SensorEvent::ForgetDeviceError { device_id: "A".to_string(), error: "locked".to_string() });
    assert_eq!(last_toast(&app).0, "Failed to forget device A: locked");
}

#[test]
fn cancellation_resets_syncs() {
    let mut app = state_with(&["A", "B"]);
    app.scanning = true;
    app.handle_event(SensorEvent::HistorySyncStarted { device_id: "A".to_string(), total_records: Some(5) });
    app.handle_event(SensorEvent::OperationCancelled { operation: "Sync".to_string() });
    assert!(!app.scanning);
    assert!(app.devices.iter().all(|d| !d.syncing_history && d.sync_progress.is_none()));
    assert_eq!(app.status, "Sync cancelled");
}

#[test]
fn service_events() {
    let mut app = AppState::new(TrayState::default());
    app.service_refreshing = true;
    app.handle_event(SensorEvent::ServiceStatusRefreshed {
        reachable: true,
        collector_running: false,
        uptime_seconds: Some(10),
        devices: Vec::new(),
    });
    assert!(!app.service_refreshing);
    assert_eq!(app.status, "Service stopped");
    assert!(app.service_status.as_ref().map(|s| s.reachable).unwrap_or(false));

    app.handle_event(SensorEvent::ServiceStatusError { error: "refused".to_string() });
    assert_eq!(app.status, "Service not reachable");
    assert!(!app.service_status.as_ref().unwrap().reachable);
    assert_eq!(last_toast(&app), ("Service error: refused".to_string(), ToastType::Error));

    app.handle_event(SensorEvent::ServiceCollectorStarted);
    assert_eq!(last_toast(&app), ("Collector started".to_string(), ToastType::Success));
    app.handle_event(SensorEvent::ServiceCollectorError { error: "e".to_string() });
    assert_eq!(last_toast(&app), ("Collector error: e".to_string(), ToastType::Error));

    app.system_service_pending = true;
    app.handle_event(SensorEvent::SystemServiceStarted);
    assert_eq!(app.system_service_status, None);
    app.handle_event(SensorEvent::SystemServiceInstalled);
    assert_eq!(app.system_service_status, Some((true, false)));
    app.handle_event(SensorEvent::SystemServiceStarted);
    assert_eq!(app.system_service_status, Some((true, true)));
    app.handle_event(SensorEvent::SystemServiceStopped);
    assert_eq!(app.system_service_status, Some((true, false)));
    app.handle_event(SensorEvent::SystemServiceError { operation: "start".to_string(), error: "denied".to_string() });
    assert_eq!(last_toast(&app).0, "Service start failed: denied");
    app.handle_event(SensorEvent::SystemServiceUninstalled);
    assert_eq!(app.system_service_status, Some((false, false)));
    assert!(!app.system_service_pending);
}

#[test]
fn monitored_devices_events() {
    let dev = |addr: &str, alias: Option<&str>, interval: u64| ServiceMonitoredDevice {
        address: addr.to_string(),
        alias: alias.map(|a| a.to_string()),
        poll_interval: interval,
    };
    let mut app = AppState::new(TrayState::default());
    app.service_config_loading = true;
    app.handle_event(SensorEvent::ServiceConfigFetched { devices: vec![dev("a", None, 60), dev("b", None, 60)] });
    assert!(!app.service_config_loading);
    assert_eq!(app.service_monitored_devices.len(), 2);

    app.add_device_dialog = Some(("c".to_string(), String::new(), 60));
    app.handle_event(SensorEvent::ServiceDeviceAdded { device: dev("c", Some("Cellar"), 120) });
    assert!(app.add_device_dialog.is_none());
    assert_eq!(app.service_monitored_devices.len(), 3);
    assert_eq!(last_toast(&app).0, "Device added to monitoring");

    app.handle_event(SensorEvent::ServiceDeviceUpdated { device: dev("b", Some("Bed"), 30) });
    assert_eq!(app.service_monitored_devices[1].alias.as_deref(), Some("Bed"));
    assert_eq!(app.service_monitored_devices[1].poll_interval, 30);
    assert_eq!(last_toast(&app).0, "Device updated");

    app.handle_event(SensorEvent::ServiceDeviceRemoved { address: "a".to_string() });
    let addrs: Vec<&str> = app.service_monitored_devices.iter().map(|d| d.address.as_str()).collect();
    assert_eq!(addrs, vec!["b", "c"]);
    assert_eq!(last_toast(&app).0, "Device removed from monitoring");

    app.handle_event(SensorEvent::ServiceDeviceError { operation: "add".to_string(), error: "dup".to_string() });
    assert_eq!(last_toast(&app), ("Device add failed: dup".to_string(), ToastType::Error));
    app.handle_event(SensorEvent::ServiceConfigError { error: "down".to_string() });
    assert_eq!(last_toast(&app).0, "Config error: down");
}

#[test]
fn polling_and_signal_events() {
    let mut app = state_with(&["A"]);
    app.handle_event(SensorEvent::BackgroundPollingStarted { device_id: "A".to_string(), interval_secs: 30 });
    assert_eq!(app.devices[0].background_polling, Some(30));
    assert_eq!(last_toast(&app).0, "Auto-refresh enabled (every 30s)");
    app.handle_event(SensorEvent::BackgroundPollingStopped { device_id: "A".to_string() });
    assert_eq!(app.devices[0].background_polling, None);
    assert_eq!(last_toast(&app).0, "Auto-refresh disabled");
    app.handle_event(SensorEvent::SignalStrengthUpdate { device_id: "A".to_string(), rssi: -77 });
    assert_eq!(app.devices[0].rssi, Some(-77));
}
