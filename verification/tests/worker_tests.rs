use aranet_cli::demo::{create_demo_devices, create_radon_device};
use aranet_cli::device::CurrentReading;
use aranet_cli::history::HistoryRecord;
use aranet_cli::service::{
    after_collector_control, after_config_fetch, after_device_removed, after_device_saved,
    after_status_check, after_system_action, command_failure_text, launch_failure_text,
    ControlReply, ServiceError, SystemAction, TaskOutcome,
};
use aranet_cli::session::{
    AppState, CachedDevice, DiscoveredDevice, SensorEvent, ServiceMonitoredDevice,
};
use aranet_cli::sync::ErrorText;
use aranet_cli::theme::ThemeMode;
use aranet_cli::tray::TrayState;
use aranet_cli::types::{DeviceType, Tab};
use aranet_cli::ui::{logging_started, toggle_logging, toggle_sticky_alerts, UiAction, UiState};
use aranet_cli::worker::{
    after_alias, after_cached_load, after_connect, after_forget, after_history_query,
    after_refresh, after_scan, cancelled_event, device_event, reading_from_store, setting_step,
    DeviceAction, DeviceRead, DeviceReport, DeviceSetting, PollingTasks, ReadOutcome, ScanOutcome,
    SettingInput, SettingPhase,
};

fn reading() -> CurrentReading {
    CurrentReading { co2: 612, humidity: 41, battery: 88, interval: 300, age: 12, radon: None }
}

fn err(message: &str, suggestion: Option<&str>) -> ErrorText {
    ErrorText { message: message.to_string(), suggestion: suggestion.map(|s| s.to_string()) }
}

fn ui() -> UiState {
    UiState {
        active_tab: Tab::Dashboard,
        window_visible: true,
        theme_mode: ThemeMode::Dark,
        theme: "dark".to_string(),
        auto_refresh_enabled: true,
        notifications_enabled: true,
        show_co2: true,
        show_temperature: true,
        show_humidity: true,
        show_pressure: true,
        sidebar_collapsed: false,
        sticky_alerts: false,
        logging_enabled: false,
        log_file: None,
        comparison_mode: false,
    }
}

#[test]
fn connect_success_saves_reports_and_loads_history() {
    let read = DeviceRead {
        name: Some("Office".to_string()),
        device_type: Some(DeviceType::Aranet4),
        reading: Some(reading()),
        settings_read: true,
        rssi: Some(-60),
    };
    let a = after_connect(ReadOutcome::Read(read));
    assert_eq!(a.len(), 7);
    assert!(matches!(&a[0], DeviceAction::SaveConnection { name: Some(n), device_type: Some(DeviceType::Aranet4) } if n == "Office"));
    assert!(matches!(a[1], DeviceAction::Report(DeviceReport::SignalStrength(-60))));
    assert!(matches!(&a[2], DeviceAction::Report(DeviceReport::Connected { name: Some(n), rssi: Some(-60), .. }) if n == "Office"));
    assert!(matches!(a[3], DeviceAction::SendSettings));
    assert!(matches!(a[4], DeviceAction::SaveReading(r) if r.co2 == 612));
    assert!(matches!(a[5], DeviceAction::Report(DeviceReport::Reading(r)) if r.co2 == 612));
    assert!(matches!(a[6], DeviceAction::LoadHistory));
}

#[test]
fn connect_without_extras_and_failures() {
    let read = DeviceRead { name: None, device_type: None, reading: None, settings_read: false, rssi: None };
    let a = after_connect(ReadOutcome::Read(read));
    assert_eq!(a.len(), 3);
    assert!(matches!(a[0], DeviceAction::SaveConnection { name: None, device_type: None }));
    assert!(matches!(a[1], DeviceAction::Report(DeviceReport::Connected { name: None, .. })));
    assert!(matches!(a[2], DeviceAction::LoadHistory));

    let failed = after_connect(ReadOutcome::Failed(err("No device", Some("Scan again"))));
    let e = match failed.into_iter().next() {
        Some(DeviceAction::Report(r)) => device_event("AA", r),
        _ => panic!("expected a report"),
    };
    assert!(matches!(e, SensorEvent::ConnectionError { ref device_id, ref error, suggestion: Some(ref s) }
        if device_id == "AA" && error == "No device" && s == "Scan again"));

    let timed = after_connect(ReadOutcome::TimedOut);
    let e = match timed.into_iter().next() {
        Some(DeviceAction::Report(r)) => device_event("AA", r),
        _ => panic!("expected a report"),
    };
    assert!(matches!(e, SensorEvent::ConnectionError { ref error, suggestion: Some(ref s), .. }
        if error == "Connection timed out" && s == "The device may be out of range or busy. Try moving closer."));

    let cancelled = after_connect(ReadOutcome::Cancelled);
    let e = match cancelled.into_iter().next() {
        Some(DeviceAction::Report(r)) => device_event("AA", r),
        _ => panic!("expected a report"),
    };
    assert!(matches!(e, SensorEvent::OperationCancelled { ref operation } if operation == "Connect to AA"));
}

#[test]
fn refresh_outcomes() {
    let read = DeviceRead { name: None, device_type: None, reading: None, settings_read: false, rssi: Some(-70) };
    let a = after_refresh(ReadOutcome::Read(read), true);
    assert_eq!(a.len(), 2);
    assert!(matches!(a[0], DeviceAction::Report(DeviceReport::SignalStrength(-70))));
    let e = match a.into_iter().nth(1) {
        Some(DeviceAction::Report(r)) => device_event("BB", r),
        _ => panic!("expected a report"),
    };
    assert!(matches!(e, SensorEvent::ReadingError { ref error, suggestion: Some(ref s), .. }
        if error == "Failed to read current values"
            && s == "The device responded but didn't send valid data. Try again."));

    let read = DeviceRead { name: None, device_type: None, reading: Some(reading()), settings_read: false, rssi: None };
    let a = after_refresh(ReadOutcome::Read(read), false);
    assert_eq!(a.len(), 2);
    assert!(matches!(a[0], DeviceAction::SaveReading(_)));

    let timed = after_refresh(ReadOutcome::TimedOut, false);
    let e = match timed.into_iter().next() {
        Some(DeviceAction::Report(r)) => device_event("BB", r),
        _ => panic!("expected a report"),
    };
    assert!(matches!(e, SensorEvent::ReadingError { ref error, .. } if error == "Refresh timed out after 30s"));

    assert!(after_refresh(ReadOutcome::Cancelled, false).is_empty());
    let c = after_refresh(ReadOutcome::Cancelled, true);
    let e = match c.into_iter().next() {
        Some(DeviceAction::Report(r)) => device_event("BB", r),
        _ => panic!("expected a report"),
    };
    assert!(matches!(e, SensorEvent::OperationCancelled { ref operation } if operation == "Refresh BB"));
}

#[test]
fn invalid_interval_is_refused_before_connecting() {
    let (p, a) = setting_step(DeviceSetting::Interval(90), SettingPhase::Start, SettingInput::Begin);
    assert_eq!(p, SettingPhase::Done);
    let e = match a.into_iter().next() {
        Some(DeviceAction::Report(r)) => device_event("CC", r),
        _ => panic!("expected a report"),
    };
    assert!(matches!(e, SensorEvent::IntervalError { ref error, suggestion: None, .. }
        if error == "Invalid interval: 90 seconds. Must be 60, 120, 300, or 600."));
}

#[test]
fn setting_runs_connect_apply_disconnect() {
    let s = DeviceSetting::Interval(300);
    let (p, a) = setting_step(s, SettingPhase::Start, SettingInput::Begin);
    assert_eq!(p, SettingPhase::Connecting);
    assert!(matches!(a.as_slice(), [DeviceAction::Connect]));
    let (p, a) = setting_step(s, p, SettingInput::Connected(Ok(())));
    assert_eq!(p, SettingPhase::Applying);
    assert!(matches!(a.as_slice(), [DeviceAction::Apply]));
    let (p, a) = setting_step(s, p, SettingInput::Applied(Ok(())));
    assert_eq!(p, SettingPhase::Done);
    assert!(matches!(a.as_slice(), [DeviceAction::Disconnect, DeviceAction::Report(DeviceReport::IntervalChanged(300))]));

    let r = DeviceSetting::BluetoothRange(true);
    let (p, _) = setting_step(r, SettingPhase::Start, SettingInput::Begin);
    let (p, a) = setting_step(r, p, SettingInput::Connected(Err(err("busy", None))));
    assert_eq!(p, SettingPhase::Done);
    assert!(matches!(a.as_slice(), [DeviceAction::Report(DeviceReport::RangeFailed(_))]));

    let h = DeviceSetting::SmartHome(false);
    let (p, a) = setting_step(h, SettingPhase::Applying, SettingInput::Applied(Err(err("denied", None))));
    assert_eq!(p, SettingPhase::Done);
    assert!(matches!(a.as_slice(), [DeviceAction::Disconnect, DeviceAction::Report(DeviceReport::SmartHomeFailed(_))]));
    // An input that does not belong to the phase changes nothing.
    let (p, a) = setting_step(h, SettingPhase::Done, SettingInput::Begin);
    assert_eq!(p, SettingPhase::Done);
    assert!(a.is_empty());
}

#[test]
fn alias_and_forget_reports() {
    assert!(matches!(after_alias(None, None), DeviceReport::AliasFailed(ref m) if m == "Could not open database"));
    assert!(matches!(after_alias(Some("Den".to_string()), Some(Ok(()))), DeviceReport::AliasChanged(Some(ref a)) if a == "Den"));
    assert!(matches!(after_alias(None, Some(Err("locked".to_string()))), DeviceReport::AliasFailed(ref m) if m == "locked"));
    assert!(matches!(after_forget(Some(Ok(false))), DeviceReport::Forgotten));
    assert!(matches!(after_forget(None), DeviceReport::ForgetFailed(ref m) if m == "Could not open database"));
    let e = device_event("DD", after_forget(Some(Ok(true))));
    assert!(matches!(e, SensorEvent::DeviceForgotten { ref device_id } if device_id == "DD"));
}

#[test]
fn polling_tasks_replace_and_stop() {
    let mut p = PollingTasks::new();
    let (had, r) = p.start("A", 60);
    assert!(!had);
    assert!(matches!(r, DeviceReport::PollingStarted(60)));
    p.start("B", 120);
    let (had, _) = p.start("A", 300);
    assert!(had);
    assert_eq!(p.tasks.len(), 2);
    assert_eq!(p.tasks[0].device_id, "B");
    assert_eq!((p.tasks[1].device_id.as_str(), p.tasks[1].interval_secs), ("A", 300));
    assert!(matches!(p.stop("A"), Some(DeviceReport::PollingStopped)));
    assert!(p.stop("A").is_none());
    assert!(!p.remove("C"));
    assert_eq!(p.tasks.len(), 1);
}

#[test]
fn cached_load_and_history_query() {
    let r = reading_from_store(500, 40, 90, Some(80));
    assert_eq!((r.co2, r.humidity, r.battery, r.interval, r.age, r.radon), (500, 40, 90, 0, 0, Some(80)));
    let (e, ids) = after_cached_load(None);
    assert!(matches!(e, SensorEvent::CachedDataLoaded { ref devices } if devices.is_empty()));
    assert!(ids.is_empty());
    let cached = vec![
        CachedDevice { id: "X".to_string(), name: None, device_type: None, reading: None, last_sync: None },
        CachedDevice { id: "Y".to_string(), name: Some("Lab".to_string()), device_type: None, reading: Some(r), last_sync: None },
    ];
    let (e, ids) = after_cached_load(Some(cached));
    assert!(matches!(e, SensorEvent::CachedDataLoaded { ref devices } if devices.len() == 2));
    assert_eq!(ids, vec!["X".to_string(), "Y".to_string()]);
    assert!(after_history_query("X", None).is_none());
    let rec = HistoryRecord { timestamp_nanos: 1, co2: 400, humidity: 30, radon: None };
    let e = after_history_query("X", Some(vec![rec]));
    assert!(matches!(e, Some(SensorEvent::HistoryLoaded { ref device_id, ref records }) if device_id == "X" && records.len() == 1));
}

#[test]
fn scan_outcomes() {
    let found = vec![DiscoveredDevice {
        identifier: "AA:01".to_string(),
        name: Some("Aranet4 1".to_string()),
        device_type: Some(DeviceType::Aranet4),
        rssi: Some(-50),
    }];
    let (save, e) = after_scan(ScanOutcome::Found(found));
    assert_eq!(save, vec![("AA:01".to_string(), Some("Aranet4 1".to_string()), Some(DeviceType::Aranet4))]);
    assert!(matches!(e, SensorEvent::ScanComplete { ref devices } if devices.len() == 1));
    let (save, e) = after_scan(ScanOutcome::Failed("Bluetooth off".to_string()));
    assert!(save.is_empty());
    assert!(matches!(e, SensorEvent::ScanError { ref error } if error == "Bluetooth off"));
    let (_, e) = after_scan(ScanOutcome::Cancelled);
    assert!(matches!(e, SensorEvent::OperationCancelled { ref operation } if operation == "Device scan"));
    assert!(matches!(cancelled_event(), SensorEvent::OperationCancelled { ref operation } if operation == "Current operation"));
}

#[test]
fn collector_and_config_events() {
    let (e, refresh) = after_collector_control(true, ControlReply::Replied(Ok(())));
    assert!(matches!(e, SensorEvent::ServiceCollectorStarted) && refresh);
    let (e, refresh) = after_collector_control(false, ControlReply::Replied(Ok(())));
    assert!(matches!(e, SensorEvent::ServiceCollectorStopped) && refresh);
    let (e, refresh) = after_collector_control(true, ControlReply::NoClient);
    assert!(!refresh);
    assert!(matches!(e, SensorEvent::ServiceCollectorError { ref error }
        if error == "Service client not initialized. Run 'aranet-service run' first, then restart the GUI."));
    let (e, _) = after_collector_control(true, ControlReply::TimedOut);
    assert!(matches!(e, SensorEvent::ServiceCollectorError { ref error } if error == "Operation timed out. The service may be unresponsive."));
    let (e, _) = after_collector_control(false, ControlReply::Replied(Err(ServiceError::Api { status: 404, message: String::new() })));
    assert!(matches!(e, SensorEvent::ServiceCollectorError { ref error } if error == "Endpoint not found. The service may be an older version."));

    let e = after_config_fetch(None);
    assert!(matches!(e, SensorEvent::ServiceConfigError { ref error } if error == "Service client not initialized"));
    let e = after_config_fetch(Some(Ok(vec![ServiceMonitoredDevice { address: "AA".to_string(), alias: None, poll_interval: 60 }])));
    assert!(matches!(e, SensorEvent::ServiceConfigFetched { ref devices } if devices.len() == 1));
}

#[test]
fn monitored_device_events() {
    let d = ServiceMonitoredDevice { address: "AA".to_string(), alias: Some("Hall".to_string()), poll_interval: 120 };
    let (e, refresh) = after_device_saved(false, Some(Ok(d)));
    assert!(refresh);
    assert!(matches!(e, SensorEvent::ServiceDeviceAdded { ref device } if device.address == "AA" && device.poll_interval == 120));
    let (e, refresh) = after_device_saved(true, None);
    assert!(!refresh);
    assert!(matches!(e, SensorEvent::ServiceDeviceError { ref operation, ref error }
        if operation == "update" && error == "Service client not initialized"));
    let (e, _) = after_device_saved(false, Some(Err(ServiceError::InvalidUrl("u".to_string()))));
    assert!(matches!(e, SensorEvent::ServiceDeviceError { ref operation, ref error }
        if operation == "add" && error == "Invalid service URL: 'u'. Check your configuration."));
    let (e, refresh) = after_device_removed("AA", Some(Ok(())));
    assert!(refresh);
    assert!(matches!(e, SensorEvent::ServiceDeviceRemoved { ref address } if address == "AA"));
}

#[test]
fn system_service_events() {
    let (e, refresh) = after_system_action(SystemAction::Install, TaskOutcome::Finished(Ok(())));
    assert!(matches!(e, SensorEvent::SystemServiceInstalled) && !refresh);
    let (e, refresh) = after_system_action(SystemAction::Start, TaskOutcome::Finished(Ok(())));
    assert!(matches!(e, SensorEvent::SystemServiceStarted) && refresh);
    let (e, _) = after_system_action(SystemAction::Stop, TaskOutcome::Finished(Err("denied".to_string())));
    assert!(matches!(e, SensorEvent::SystemServiceError { ref operation, ref error } if operation == "stop" && error == "denied"));
    let (e, _) = after_system_action(SystemAction::Uninstall, TaskOutcome::Failed("panicked".to_string()));
    assert!(matches!(e, SensorEvent::SystemServiceError { ref operation, ref error }
        if operation == "uninstall" && error == "Task failed: panicked"));
    assert!(matches!(after_status_check(TaskOutcome::Finished((true, false))),
        SensorEvent::SystemServiceStatus { installed: true, running: false }));
    assert!(matches!(after_status_check(TaskOutcome::Failed("x".to_string())),
        SensorEvent::SystemServiceError { ref operation, ref error } if operation == "status" && error == "Task failed: x"));
    assert_eq!(command_failure_text("  Error: no unit\n", "see log \n"), "Error: no unit\nsee log");
    assert_eq!(command_failure_text("", ""), "");
    assert_eq!(launch_failure_text("not found"), "Failed to run aranet-service: not found");
}

#[test]
fn sticky_alerts_and_logging() {
    let mut app = AppState::new(TrayState::default());
    let mut u = ui();
    toggle_sticky_alerts(&mut app, &mut u);
    assert!(u.sticky_alerts);
    assert_eq!(app.toasts.last().unwrap().message, "Sticky alerts enabled - alerts won't auto-clear");
    toggle_sticky_alerts(&mut app, &mut u);
    assert_eq!(app.toasts.last().unwrap().message, "Sticky alerts disabled");

    let a = toggle_logging(&mut app, &mut u);
    assert!(matches!(a.as_slice(), [UiAction::StartLogging]));
    assert!(!u.logging_enabled);
    logging_started(&mut app, &mut u, Err("read-only".to_string()));
    assert!(!u.logging_enabled);
    assert_eq!(app.toasts.last().unwrap().message, "Failed to create log directory: read-only");
    logging_started(&mut app, &mut u, Ok("/tmp/readings.csv".to_string()));
    assert!(u.logging_enabled);
    assert_eq!(u.log_file.as_deref(), Some("/tmp/readings.csv"));
    assert_eq!(app.toasts.last().unwrap().message, "Logging to /tmp/readings.csv");
    let a = toggle_logging(&mut app, &mut u);
    assert!(a.is_empty());
    assert!(!u.logging_enabled);
    assert_eq!(app.toasts.last().unwrap().message, "Data logging disabled");
}

#[test]
fn demo_devices_in_order() {
    let synced = time::OffsetDateTime::from_unix_timestamp(1_700_000_000).unwrap();
    let radon_history = vec![HistoryRecord { timestamp_nanos: 5, co2: 0, humidity: 52, radon: Some(75) }];
    let rn = create_radon_device(radon_history.clone(), synced);
    assert_eq!(rn.name.as_deref(), Some("AranetRn+ 306B8"));
    assert_eq!(rn.reading.unwrap().radon, Some(110));
    let now: i128 = 1_700_000_000_000_000_000;
    let devices = create_demo_devices(now, synced, radon_history, synced);
    assert_eq!(devices.len(), 2);
    assert_eq!(devices[0].name.as_deref(), Some("Aranet4 17C3C"));
    assert_eq!(devices[0].history.len(), 288);
    assert_eq!(devices[1].id, "387c18c7-299f-cc32-d01c-6cf29a8d3ca5");
    assert_eq!(devices[1].history.len(), 1);
}
