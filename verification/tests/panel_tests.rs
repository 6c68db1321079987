use aranet_cli::alerts::AlertHistory;
use aranet_cli::status_bar::{
    alerts_button, has_recent_alerts, is_recent_alert, screenshot_due, status_dot_color,
};
use aranet_cli::app_settings::{
    choose_pref, export_location_text, BehaviorPrefs, PrefChoice, PrefOutcome,
};
use aranet_cli::cli::{device_hint, DeviceSource};
use aranet_cli::comparison::{
    click_device, compare_button_label, comparison_battery_color, comparison_header, exit_comparison,
    toggle_comparison_mode,
};
use aranet_cli::device::{CurrentReading, DeviceState};
use aranet_cli::device_panel::{
    battery_badge, co2_card_status, co2_session_line, co2_trend_color, kind_badge, radon_session_line, panel_body, panel_controls, press_panel_button, reading_badge_stale,
    signal_label, PanelBody, PanelButton, PanelControls,
};
use aranet_cli::device_list::{
    connect_all, connected_count, device_list_order, disconnect_all, filters_active, list_battery_badge,
    list_kind_label, list_signal_text, primary_value, showing_text, PrimaryValue,
};
use aranet_cli::helpers::ToastType;
use aranet_cli::history::HistoryRecord;
use aranet_cli::service::{
    collection_badge, collection_stats_text, monitored_device_label,
};
use aranet_cli::service::SystemAction;
use aranet_cli::service_panel::{
    close_add_device, collector_badge, collector_button, last_error_text, load_monitored,
    open_add_device, press_system_button, reachability_badge, refresh_service, remove_monitored_request,
    system_button_label, system_service_buttons, ServiceRequest,
};
use aranet_cli::session::{AppState, ServiceDeviceStats};
use aranet_cli::settings_panel::{
    choose_interval, choose_range, choose_smart_home, save_alias_edit, start_alias_edit, AliasEdit,
};
use aranet_cli::theme::{Theme, ThemeMode};
use aranet_cli::tray::{tray_commands, TrayClick, TrayCommand, TrayMenuItem, TrayState};
use aranet_cli::types::{
    AlertSeverity, ConnectionFilter, ConnectionState, DeviceType, DeviceTypeFilter, Tab, Trend,
};
use aranet_cli::ui::{
    any_history, apply_tray_prefs, GuiPrefs,
    close_requested, export_finished, set_do_not_disturb, set_sidebar_collapsed, settings_theme_mode, shortcut, AlertThresholds, Shortcut,
    UiAction, UiState,
};

fn ui() -> UiState {
    UiState {
        active_tab: Tab::Dashboard,
        window_visible: true,
        theme_mode: ThemeMode::Dark,
        theme: "dark".to_string(),
        auto_refresh_enabled: true,
        notifications_enabled: true,
        show_co2: true,
        show_temperature: true,
        show_humidity: true,
        show_pressure: true,
        sidebar_collapsed: false,
        sticky_alerts: false,
        logging_enabled: false,
        log_file: None,
        comparison_mode: false,
    }
}

fn device(id: &str, name: Option<&str>, kind: Option<DeviceType>, connected: bool) -> DeviceState {
    let mut d = DeviceState::from_discovered(id, name, kind, None);
    if connected {
        d.connection = ConnectionState::Connected;
    }
    d
}

fn sample_devices() -> Vec<DeviceState> {
    vec![
        device("D0", Some("Kitchen"), Some(DeviceType::Aranet4), false),
        device("D1", Some("Office"), Some(DeviceType::Aranet4), true),
        device("D2", Some("Basement"), Some(DeviceType::AranetRadon), false),
        device("D3", Some("Attic"), Some(DeviceType::Aranet2), true),
    ]
}

fn stats(polling: bool, error: Option<&str>, successes: u64) -> ServiceDeviceStats {
    ServiceDeviceStats {
        device_id: "AA:BB".to_string(),
        alias: None,
        poll_interval: 60,
        polling,
        success_count: successes,
        failure_count: 2,
        last_poll_at: None,
        last_error: error.map(|e| e.to_string()),
    }
}

#[test]
fn list_puts_connected_first_then_names() {
    let devices = sample_devices();
    let order = device_list_order(&devices, DeviceTypeFilter::All, ConnectionFilter::All);
    assert_eq!(order, vec![3, 1, 2, 0]);
}

#[test]
fn list_applies_both_filters() {
    let devices = sample_devices();
    assert_eq!(
        device_list_order(&devices, DeviceTypeFilter::Aranet4, ConnectionFilter::All),
        vec![1, 0]
    );
    assert_eq!(
        device_list_order(&devices, DeviceTypeFilter::All, ConnectionFilter::Disconnected),
        vec![2, 0]
    );
    assert_eq!(
        device_list_order(&devices, DeviceTypeFilter::AranetRadiation, ConnectionFilter::All),
        Vec::<usize>::new()
    );
    assert!(!filters_active(DeviceTypeFilter::All, ConnectionFilter::All));
    assert!(filters_active(DeviceTypeFilter::All, ConnectionFilter::Connected));
    assert!(filters_active(DeviceTypeFilter::Aranet2, ConnectionFilter::All));
    assert_eq!(connected_count(&devices), 2);
}

#[test]
fn list_ties_keep_discovery_order() {
    let devices = vec![
        device("B", None, None, false),
        device("A", Some("B"), None, false),
    ];
    // Both are shown as "B": the one found first stays first.
    assert_eq!(
        device_list_order(&devices, DeviceTypeFilter::All, ConnectionFilter::All),
        vec![0, 1]
    );
}

#[test]
fn collection_badges_and_texts() {
    assert_eq!(collection_badge(&stats(true, Some("x"), 3)), "POLL");
    assert_eq!(collection_badge(&stats(false, Some("x"), 3)), "FAIL");
    assert_eq!(collection_badge(&stats(false, None, 3)), "PASS");
    assert_eq!(collection_badge(&stats(false, None, 0)), "WAIT");
    assert_eq!(
        collection_stats_text(&stats(false, None, 12)),
        "Success: 12 | Failures: 2 | Interval: 60s"
    );
    assert_eq!(
        monitored_device_label("AA:BB", &Some("Bedroom".to_string())),
        "Bedroom (AA:BB)"
    );
    assert_eq!(monitored_device_label("AA:BB", &None), "AA:BB");
}

#[test]
fn thresholds_push_each_other() {
    let mut t = AlertThresholds { co2_warning: 800, co2_danger: 1000, radon_warning: 100, radon_danger: 150 };
    t.set_co2_warning(1100);
    assert_eq!((t.co2_warning, t.co2_danger), (1100, 1150));
    t.set_co2_danger(1000);
    assert_eq!((t.co2_warning, t.co2_danger), (950, 1000));
    t.set_co2_warning(1200);
    t.set_co2_danger(2000);
    assert_eq!((t.co2_warning, t.co2_danger), (1200, 2000));
    t.set_radon_warning(200);
    assert_eq!((t.radon_warning, t.radon_danger), (200, 210));
    t.set_radon_danger(100);
    assert_eq!((t.radon_warning, t.radon_danger), (90, 100));
    t.set_radon_warning(50);
    assert_eq!((t.radon_warning, t.radon_danger), (50, 100));
    assert!(t.co2_warning < t.co2_danger && t.radon_warning < t.radon_danger);
}

#[test]
fn co2_danger_floor_keeps_warning_at_least_600() {
    let mut t = AlertThresholds { co2_warning: 1200, co2_danger: 2000, radon_warning: 100, radon_danger: 150 };
    t.set_co2_danger(1000);
    assert_eq!((t.co2_warning, t.co2_danger), (950, 1000));
    let mut u = AlertThresholds { co2_warning: 1200, co2_danger: 1300, radon_warning: 100, radon_danger: 150 };
    u.set_co2_warning(1200);
    assert_eq!(u.co2_danger, 1300);
}

#[test]
fn do_not_disturb_updates_tray_and_toasts() {
    let mut app = AppState::new(TrayState::default());
    let mut p = prefs();
    assert!(!set_do_not_disturb(&mut app, &mut p, false));
    assert!(app.toasts.is_empty());
    assert!(set_do_not_disturb(&mut app, &mut p, true));
    assert!(app.tray.do_not_disturb && p.do_not_disturb);
    assert_eq!(app.toasts.last().unwrap().message, "Do Not Disturb enabled");
    assert!(set_do_not_disturb(&mut app, &mut p, false));
    assert!(!app.tray.do_not_disturb);
    assert_eq!(app.toasts.last().unwrap().message, "Do Not Disturb disabled");
    assert!(matches!(app.toasts.last().unwrap().toast_type, ToastType::Info));
}

#[test]
fn settings_theme_names() {
    assert_eq!(settings_theme_mode("light"), ThemeMode::Light);
    assert_eq!(settings_theme_mode("dark"), ThemeMode::Dark);
    assert_eq!(settings_theme_mode("system"), ThemeMode::Dark);
}

#[test]
fn navigation_stays_within_the_list() {
    let mut app = AppState::new(TrayState::default());
    let mut u = ui();
    assert!(shortcut(&mut app, &mut u, Shortcut::Navigate(1)).is_empty());
    assert_eq!(app.selected_device, None);
    app.devices = sample_devices();
    shortcut(&mut app, &mut u, Shortcut::Navigate(1));
    assert_eq!(app.selected_device, Some(1));
    shortcut(&mut app, &mut u, Shortcut::Navigate(1));
    shortcut(&mut app, &mut u, Shortcut::Navigate(1));
    shortcut(&mut app, &mut u, Shortcut::Navigate(1));
    assert_eq!(app.selected_device, Some(3));
    shortcut(&mut app, &mut u, Shortcut::Navigate(-1));
    assert_eq!(app.selected_device, Some(2));
    app.selected_device = Some(0);
    shortcut(&mut app, &mut u, Shortcut::Navigate(-1));
    assert_eq!(app.selected_device, Some(0));
}

#[test]
fn refresh_and_sync_shortcuts_use_connected_devices() {
    let mut app = AppState::new(TrayState::default());
    let mut u = ui();
    app.devices = sample_devices();
    let actions = shortcut(&mut app, &mut u, Shortcut::RefreshConnected);
    let ids: Vec<String> = actions
        .iter()
        .map(|a| match a {
            UiAction::RefreshReading { device_id } => device_id.clone(),
            _ => panic!("unexpected action"),
        })
        .collect();
    assert_eq!(ids, vec!["D1".to_string(), "D3".to_string()]);

    app.selected_device = Some(0);
    assert!(shortcut(&mut app, &mut u, Shortcut::SyncHistory).is_empty());
    app.selected_device = Some(1);
    let sync = shortcut(&mut app, &mut u, Shortcut::SyncHistory);
    assert!(matches!(sync.as_slice(), [UiAction::SyncHistory { device_id }] if device_id == "D1"));
    assert_eq!(app.toasts.last().unwrap().message, "Syncing history for Office");
}

#[test]
fn export_shortcut_needs_history_tab_and_records() {
    let mut app = AppState::new(TrayState::default());
    let mut u = ui();
    app.devices = sample_devices();
    app.selected_device = Some(1);
    assert!(shortcut(&mut app, &mut u, Shortcut::ExportCsv).is_empty());
    shortcut(&mut app, &mut u, Shortcut::ShowTab(Tab::History));
    assert_eq!(u.active_tab, Tab::History);
    assert!(shortcut(&mut app, &mut u, Shortcut::ExportCsv).is_empty());
    app.devices[1].history.push(HistoryRecord {
        timestamp_nanos: 0,
        co2: 500,
        humidity: 40,
        radon: None,
    });
    let export = shortcut(&mut app, &mut u, Shortcut::ExportCsv);
    assert!(matches!(export.as_slice(), [UiAction::ExportShownHistory { device_index: 1 }]));
}

#[test]
fn toggle_shortcuts() {
    let mut app = AppState::new(TrayState::default());
    let mut u = ui();
    let a = shortcut(&mut app, &mut u, Shortcut::ToggleTheme);
    assert_eq!(u.theme_mode, ThemeMode::Light);
    assert!(matches!(a.as_slice(), [UiAction::RestyleTheme]));
    shortcut(&mut app, &mut u, Shortcut::ToggleAutoRefresh);
    assert!(!u.auto_refresh_enabled);
    let s = shortcut(&mut app, &mut u, Shortcut::ToggleSidebar);
    assert!(u.sidebar_collapsed);
    assert!(matches!(s.as_slice(), [UiAction::SaveSidebar]));
    let c = shortcut(&mut app, &mut u, Shortcut::CloseDialogs);
    assert!(matches!(c.as_slice(), [UiAction::CloseDialogs]));
    let scan = shortcut(&mut app, &mut u, Shortcut::Scan);
    assert!(matches!(scan.as_slice(), [UiAction::Scan { duration_secs: 5 }]));
}

#[test]
fn closing_hides_to_tray_when_asked() {
    let mut u = ui();
    assert!(close_requested(&mut u, false).is_empty());
    assert!(u.window_visible);
    let a = close_requested(&mut u, true);
    assert!(!u.window_visible);
    assert!(matches!(a.as_slice(), [UiAction::CancelClose, UiAction::HideWindow]));
}

#[test]
fn device_hints_only_for_last_device() {
    assert_eq!(
        device_hint(Some("AA:BB"), Some(DeviceSource::Last), Some("Office"), false).as_deref(),
        Some("Using last connected device: Office (AA:BB)")
    );
    assert_eq!(
        device_hint(Some("AA:BB"), Some(DeviceSource::Last), None, false).as_deref(),
        Some("Using last connected device: AA:BB")
    );
    assert_eq!(device_hint(Some("AA:BB"), Some(DeviceSource::Last), None, true), None);
    assert_eq!(device_hint(Some("AA:BB"), Some(DeviceSource::Default), None, false), None);
    assert_eq!(device_hint(None, Some(DeviceSource::Last), None, false), None);
}

#[test]
fn tray_events_become_commands() {
    let items = vec![TrayMenuItem::Scan, TrayMenuItem::Hide, TrayMenuItem::Settings];
    let clicks = vec![
        TrayClick::Click { left: true, released: false },
        TrayClick::Click { left: true, released: true },
        TrayClick::DoubleClick { left: false },
        TrayClick::DoubleClick { left: true },
        TrayClick::Other,
    ];
    assert_eq!(
        tray_commands(&items, &clicks),
        vec![
            TrayCommand::ShowWindow,
            TrayCommand::Scan,
            TrayCommand::HideWindow,
            TrayCommand::ShowWindow,
            TrayCommand::OpenSettings,
            TrayCommand::ToggleWindow,
            TrayCommand::ShowWindow,
        ]
    );
    assert_eq!(tray_commands(&vec![TrayMenuItem::Quit, TrayMenuItem::RefreshAll], &vec![]),
        vec![TrayCommand::Quit, TrayCommand::RefreshAll]);
}

#[test]
fn start_up_state_from_preferences() {
    let prefs = GuiPrefs {
        theme: "light".to_string(),
        sidebar_collapsed: true,
        notifications_enabled: true,
        show_co2: true,
        show_temperature: false,
        show_humidity: true,
        show_pressure: false,
        colored_tray_icon: true,
        notification_sound: false,
        close_to_tray: true,
        compact_mode: false,
        do_not_disturb: false,
        start_minimized: false,
        temperature_unit: "celsius".to_string(),
        pressure_unit: "hpa".to_string(),
        default_export_format: "csv".to_string(),
        export_directory: String::new(),
        thresholds: AlertThresholds { co2_warning: 1000, co2_danger: 1400, radon_warning: 100, radon_danger: 150 },
    };
    let u = UiState::from_prefs(&prefs, false, true);
    assert_eq!(u.theme_mode, ThemeMode::Light);
    assert!(u.auto_refresh_enabled && u.sidebar_collapsed && !u.show_temperature);
    assert_eq!(u.active_tab, Tab::Dashboard);
    let demo = UiState::from_prefs(&GuiPrefs { theme: "system".to_string(), ..prefs.clone() }, true, false);
    assert_eq!(demo.theme_mode, ThemeMode::Dark);
    assert!(!demo.auto_refresh_enabled && !demo.window_visible);

    let mut tray = TrayState::default();
    assert!(apply_tray_prefs(&mut tray, &prefs, true));
    assert!(tray.colored_tray_icon && tray.notifications_enabled && !tray.notification_sound);
    assert!(!apply_tray_prefs(&mut tray, &prefs, false));

    let mut devices = sample_devices();
    assert!(!any_history(&devices));
    devices[2].history.push(HistoryRecord { timestamp_nanos: 0, co2: 0, humidity: 50, radon: Some(90) });
    assert!(any_history(&devices));
}

#[test]
fn interval_choice_starts_one_change() {
    let mut app = AppState::new(TrayState::default());
    app.devices = sample_devices();
    // No reading yet: the interval section is not shown.
    assert!(choose_interval(&mut app, 1, 0).is_empty());
    app.devices[1].reading = Some(CurrentReading { co2: 700, humidity: 40, battery: 80, interval: 300, age: 5, radon: None });
    // The current interval: nothing to do.
    assert!(choose_interval(&mut app, 1, 2).is_empty());
    assert!(!app.updating_settings);
    let a = choose_interval(&mut app, 1, 3);
    assert!(matches!(a.as_slice(), [UiAction::SetInterval { device_id, interval_secs: 600 }] if device_id == "D1"));
    assert!(app.updating_settings);
    assert_eq!(app.status, "Setting interval to 10 min...");
    // A second change waits for the first.
    assert!(choose_interval(&mut app, 1, 0).is_empty());
    assert!(choose_smart_home(&mut app, 1, true, false).is_empty());
}

#[test]
fn smart_home_and_range_choices() {
    let mut app = AppState::new(TrayState::default());
    app.devices = sample_devices();
    assert!(choose_smart_home(&mut app, 0, true, true).is_empty());
    let a = choose_smart_home(&mut app, 0, false, true);
    assert!(matches!(a.as_slice(), [UiAction::SetSmartHome { device_id, enabled: false }] if device_id == "D0"));
    assert_eq!(app.status, "Disabling Smart Home...");
    app.updating_settings = false;
    let a = choose_range(&mut app, 2, true, false);
    assert!(matches!(a.as_slice(), [UiAction::SetBluetoothRange { device_id, extended: true }] if device_id == "D2"));
    assert_eq!(app.status, "Setting range to Extended...");
    app.updating_settings = false;
    assert!(choose_range(&mut app, 2, false, false).is_empty());
    choose_range(&mut app, 2, false, true);
    assert_eq!(app.status, "Setting range to Standard...");
}

#[test]
fn renaming_trims_and_clears() {
    let mut app = AppState::new(TrayState::default());
    app.devices = sample_devices();
    let mut edit: Option<AliasEdit> = None;
    assert!(save_alias_edit(&mut app, 0, &mut edit).is_empty());
    start_alias_edit(&app, 0, &mut edit);
    assert!(matches!(&edit, Some(e) if e.device_id == "D0" && e.text == "Kitchen"));
    // Saving another device does nothing.
    assert!(save_alias_edit(&mut app, 1, &mut edit).is_empty());
    edit.as_mut().unwrap().text = "  Pantry \t".to_string();
    let a = save_alias_edit(&mut app, 0, &mut edit);
    assert!(matches!(a.as_slice(), [UiAction::SetAlias { device_id, alias: Some(al) }] if device_id == "D0" && al == "Pantry"));
    assert!(edit.is_none());
    assert!(app.updating_settings);
    let mut e2 = Some(AliasEdit { device_id: "D2".to_string(), text: "   ".to_string() });
    let a = save_alias_edit(&mut app, 2, &mut e2);
    assert!(matches!(a.as_slice(), [UiAction::SetAlias { alias: None, .. }]));
    // Renaming is disabled while a change is under way.
    let mut e3: Option<AliasEdit> = None;
    start_alias_edit(&app, 3, &mut e3);
    assert!(e3.is_none());
}

#[test]
fn comparison_picks_and_clears() {
    let mut app = AppState::new(TrayState::default());
    let mut u = ui();
    app.devices = sample_devices();
    // Outside comparison mode a click selects.
    click_device(&mut app, &u, 2);
    assert_eq!(app.selected_device, Some(2));
    assert_eq!(compare_button_label(&app, &u).as_deref(), Some("Compare"));
    toggle_comparison_mode(&mut app, &mut u);
    assert!(u.comparison_mode);
    click_device(&mut app, &u, 1);
    click_device(&mut app, &u, 3);
    assert_eq!(app.comparison_devices, vec![1, 3]);
    assert_eq!(app.selected_device, Some(2));
    assert_eq!(compare_button_label(&app, &u).as_deref(), Some("Compare (2)"));
    assert_eq!(comparison_header(&app).as_deref(), Some("Comparing 2 devices"));
    click_device(&mut app, &u, 1);
    assert_eq!(app.comparison_devices, vec![3]);
    assert_eq!(comparison_header(&app), None);
    click_device(&mut app, &u, 0);
    click_device(&mut app, &u, 0);
    assert_eq!(app.comparison_devices, vec![3]);
    toggle_comparison_mode(&mut app, &mut u);
    assert!(!u.comparison_mode);
    assert!(app.comparison_devices.is_empty());
    toggle_comparison_mode(&mut app, &mut u);
    click_device(&mut app, &u, 0);
    exit_comparison(&mut app, &mut u);
    assert!(!u.comparison_mode && app.comparison_devices.is_empty());
}

#[test]
fn comparison_needs_two_connected_devices() {
    let mut app = AppState::new(TrayState::default());
    let mut u = ui();
    app.devices = sample_devices();
    app.devices[3].connection = ConnectionState::Disconnected;
    assert_eq!(compare_button_label(&app, &u), None);
    toggle_comparison_mode(&mut app, &mut u);
    assert!(!u.comparison_mode);
    let t = Theme::dark();
    assert_eq!(comparison_battery_color(&t, 19), t.danger);
    assert_eq!(comparison_battery_color(&t, 20), t.warning);
    assert_eq!(comparison_battery_color(&t, 40), t.success);
}

#[test]
fn device_panel_parts() {
    let t = Theme::light();
    assert_eq!(kind_badge(DeviceType::AranetRadon), "AranetRadon");
    assert_eq!(signal_label(&t, -55), ("-55 dBm".to_string(), t.success));
    assert_eq!(signal_label(&t, -60).1, t.warning);
    assert_eq!(signal_label(&t, -75), ("-75 dBm".to_string(), t.danger));
    assert_eq!(battery_badge(&t, 20), None);
    assert_eq!(battery_badge(&t, 19), Some(("19% battery".to_string(), t.warning)));
    assert_eq!(battery_badge(&t, 9), Some(("9% battery".to_string(), t.danger)));
    let mut r = CurrentReading { co2: 500, humidity: 40, battery: 50, interval: 300, age: 600, radon: None };
    assert!(!reading_badge_stale(&r));
    r.age = 601;
    assert!(reading_badge_stale(&r));
    r.interval = 0;
    assert!(!reading_badge_stale(&r));

    assert!(matches!(panel_controls(&ConnectionState::Error("x".to_string())), PanelControls::Connect));
    assert!(matches!(panel_controls(&ConnectionState::Connecting), PanelControls::Busy(ref s) if s == "Connecting..."));
    assert!(matches!(panel_controls(&ConnectionState::Reconnecting { attempt: 2, last_error: None }),
        PanelControls::Busy(ref s) if s == "Reconnecting (attempt 2)..."));
    assert!(matches!(panel_controls(&ConnectionState::Connected), PanelControls::Connected));

    let mut d = device("E1", None, None, true);
    assert_eq!(panel_body(&d), PanelBody::Waiting);
    assert!(matches!(press_panel_button(&d, PanelButton::Refresh), UiAction::RefreshReading { ref device_id } if device_id == "E1"));
    assert!(matches!(press_panel_button(&d, PanelButton::Disconnect), UiAction::Disconnect { ref device_id } if device_id == "E1"));
    d.connection = ConnectionState::Disconnected;
    assert_eq!(panel_body(&d), PanelBody::Empty);
    assert!(matches!(press_panel_button(&d, PanelButton::Connect), UiAction::Connect { ref device_id } if device_id == "E1"));
    d.reading = Some(r);
    assert_eq!(panel_body(&d), PanelBody::Readings);
}

#[test]
fn reading_card_parts() {
    let t = Theme::dark();
    assert_eq!(co2_card_status(&t, 799), ("Good", t.success));
    assert_eq!(co2_card_status(&t, 800), ("Moderate", t.warning));
    assert_eq!(co2_card_status(&t, 1499), ("Poor", t.caution));
    assert_eq!(co2_card_status(&t, 1500), ("Bad", t.danger));
    assert_eq!(co2_trend_color(&t, Trend::Rising), t.danger);
    assert_eq!(co2_trend_color(&t, Trend::Falling), t.success);
    assert_eq!(co2_trend_color(&t, Trend::Stable), t.text_muted);
    let mut d = device("S1", None, None, true);
    assert_eq!(co2_session_line(&d.session_stats), None);
    assert_eq!(radon_session_line(&d.session_stats), None);
    d.update_reading(CurrentReading { co2: 600, humidity: 40, battery: 90, interval: 300, age: 0, radon: Some(100) });
    d.update_reading(CurrentReading { co2: 900, humidity: 40, battery: 90, interval: 300, age: 0, radon: Some(50) });
    assert_eq!(co2_session_line(&d.session_stats), Some((600, 900, 750)));
    assert_eq!(radon_session_line(&d.session_stats), Some((50, 100, 75)));
}

fn prefs() -> GuiPrefs {
    GuiPrefs {
        theme: "dark".to_string(),
        sidebar_collapsed: false,
        notifications_enabled: true,
        show_co2: true,
        show_temperature: true,
        show_humidity: true,
        show_pressure: true,
        colored_tray_icon: false,
        notification_sound: true,
        close_to_tray: false,
        compact_mode: false,
        do_not_disturb: false,
        start_minimized: false,
        temperature_unit: "celsius".to_string(),
        pressure_unit: "hpa".to_string(),
        default_export_format: "csv".to_string(),
        export_directory: String::new(),
        thresholds: AlertThresholds { co2_warning: 1000, co2_danger: 1400, radon_warning: 100, radon_danger: 150 },
    }
}

#[test]
fn settings_choices_save_only_changes() {
    let mut p = prefs();
    let mut b = BehaviorPrefs { auto_connect: true, auto_sync: false, remember_devices: true, load_cache: true };
    let mut u = ui();
    let mut tray = TrayState::default();
    let none = PrefOutcome { save_prefs: false, save_behavior: false, restyle: false, refresh_tray: false };
    let save = PrefOutcome { save_prefs: true, ..none };

    assert_eq!(choose_pref(&mut p, &mut b, &mut u, &mut tray, true, PrefChoice::LightTheme(false)), none);
    assert_eq!(choose_pref(&mut p, &mut b, &mut u, &mut tray, true, PrefChoice::LightTheme(true)), PrefOutcome { restyle: true, ..save });
    assert_eq!((p.theme.as_str(), u.theme.as_str(), u.theme_mode), ("light", "light", ThemeMode::Light));
    assert_eq!(choose_pref(&mut p, &mut b, &mut u, &mut tray, true, PrefChoice::ColoredTrayIcon(true)), PrefOutcome { refresh_tray: true, ..save });
    assert!(p.colored_tray_icon && tray.colored_tray_icon);
    assert_eq!(choose_pref(&mut p, &mut b, &mut u, &mut tray, true, PrefChoice::Notifications(false)), save);
    assert!(!p.notifications_enabled && !u.notifications_enabled && !tray.notifications_enabled);
    // The sound control is hidden while notifications are off.
    assert_eq!(choose_pref(&mut p, &mut b, &mut u, &mut tray, true, PrefChoice::NotificationSound(false)), none);
    assert!(p.notification_sound);
    // The tray behaviors need a tray.
    assert_eq!(choose_pref(&mut p, &mut b, &mut u, &mut tray, false, PrefChoice::CloseToTray(true)), none);
    assert_eq!(choose_pref(&mut p, &mut b, &mut u, &mut tray, true, PrefChoice::StartMinimized(true)), save);
    assert!(p.start_minimized);
    assert_eq!(choose_pref(&mut p, &mut b, &mut u, &mut tray, true, PrefChoice::Fahrenheit(true)), save);
    assert_eq!(p.temperature_unit, "fahrenheit");
    assert_eq!(choose_pref(&mut p, &mut b, &mut u, &mut tray, true, PrefChoice::InchesOfMercury(true)), save);
    assert_eq!(p.pressure_unit, "inhg");
    assert_eq!(choose_pref(&mut p, &mut b, &mut u, &mut tray, true, PrefChoice::JsonExports(false)), none);
    assert_eq!(choose_pref(&mut p, &mut b, &mut u, &mut tray, true, PrefChoice::ResetExportDirectory), none);
    p.export_directory = "/data".to_string();
    assert_eq!(export_location_text(&p, None), "/data");
    assert_eq!(choose_pref(&mut p, &mut b, &mut u, &mut tray, true, PrefChoice::ResetExportDirectory), save);
    assert_eq!(export_location_text(&p, None), "Downloads folder");
    assert_eq!(export_location_text(&p, Some("/home/u/Downloads".to_string())), "/home/u/Downloads");
    let behavior = PrefOutcome { save_behavior: true, ..none };
    assert_eq!(choose_pref(&mut p, &mut b, &mut u, &mut tray, true, PrefChoice::AutoSync(true)), behavior);
    assert!(b.auto_sync);
    assert_eq!(choose_pref(&mut p, &mut b, &mut u, &mut tray, true, PrefChoice::AutoSync(true)), none);
    assert_eq!(choose_pref(&mut p, &mut b, &mut u, &mut tray, true, PrefChoice::LoadCache(false)), behavior);
    assert_eq!(choose_pref(&mut p, &mut b, &mut u, &mut tray, true, PrefChoice::CompactMode(true)), PrefOutcome { restyle: true, ..save });
}

#[test]
fn service_screen_buttons() {
    let t = Theme::dark();
    assert_eq!(reachability_badge(&t, true), ("Reachable", t.success));
    assert_eq!(reachability_badge(&t, false), ("Not Reachable", t.danger));
    assert_eq!(collector_badge(&t, false), ("Stopped", t.text_muted));
    let (label, color, req) = collector_button(&t, true);
    assert_eq!((label, color), ("Stop Collector", t.danger));
    assert!(matches!(req, ServiceRequest::StopCollector));
    assert!(matches!(collector_button(&t, false).2, ServiceRequest::StartCollector));
    assert_eq!(system_service_buttons(true, true), vec![SystemAction::Stop, SystemAction::Uninstall]);
    assert_eq!(system_service_buttons(true, false), vec![SystemAction::Start, SystemAction::Uninstall]);
    assert_eq!(system_service_buttons(false, false), vec![SystemAction::Install]);
    assert_eq!(system_button_label(SystemAction::Uninstall), "Uninstall");
    assert_eq!(last_error_text("timeout"), "Last error: timeout");

    let mut app = AppState::new(TrayState::default());
    let a = refresh_service(&mut app);
    assert!(matches!(a.as_slice(), [UiAction::Service(ServiceRequest::RefreshStatus)]));
    assert!(app.service_refreshing);
    assert!(refresh_service(&mut app).is_empty());

    let a = press_system_button(&mut app, Some(SystemAction::Install));
    assert!(matches!(a.as_slice(), [UiAction::Service(ServiceRequest::SystemService { action: SystemAction::Install, user_level: true })]));
    assert!(press_system_button(&mut app, None).is_empty());
    app.system_service_pending = false;
    let a = press_system_button(&mut app, None);
    assert!(matches!(a.as_slice(), [UiAction::Service(ServiceRequest::CheckSystemService { user_level: true })]));

    let a = load_monitored(&mut app);
    assert!(matches!(a.as_slice(), [UiAction::Service(ServiceRequest::FetchConfig)]));
    assert!(app.service_config_loading);
    assert!(load_monitored(&mut app).is_empty());
    assert!(matches!(remove_monitored_request("AA"), UiAction::Service(ServiceRequest::RemoveDevice { ref address }) if address == "AA"));
}

#[test]
fn add_device_form() {
    let mut app = AppState::new(TrayState::default());
    assert!(close_add_device(&mut app, true).is_empty());
    open_add_device(&mut app);
    assert_eq!(app.add_device_dialog, Some((String::new(), String::new(), 60)));
    // "Add" waits for an address.
    assert!(close_add_device(&mut app, true).is_empty());
    assert!(app.add_device_dialog.is_some());
    app.add_device_dialog = Some(("AA:BB".to_string(), String::new(), 120));
    let a = close_add_device(&mut app, true);
    assert!(matches!(a.as_slice(), [UiAction::Service(ServiceRequest::AddDevice { address, alias: None, poll_interval: 120 })] if address == "AA:BB"));
    assert!(app.add_device_dialog.is_none());
    open_add_device(&mut app);
    app.add_device_dialog = Some(("CC".to_string(), "Den".to_string(), 60));
    let a = close_add_device(&mut app, true);
    assert!(matches!(a.as_slice(), [UiAction::Service(ServiceRequest::AddDevice { alias: Some(al), .. })] if al == "Den"));
    open_add_device(&mut app);
    assert!(close_add_device(&mut app, false).is_empty());
    assert!(app.add_device_dialog.is_none());
}

#[test]
fn bulk_connect_and_disconnect() {
    let mut app = AppState::new(TrayState::default());
    assert!(connect_all(&mut app).is_empty());
    assert!(disconnect_all(&mut app).is_empty());
    app.devices = sample_devices();
    app.devices.push(device("D4", None, None, false));
    app.devices[4].connection = ConnectionState::Error("lost".to_string());
    let a = connect_all(&mut app);
    let ids: Vec<&str> = a.iter().map(|x| match x {
        UiAction::Connect { device_id } => device_id.as_str(),
        _ => panic!("expected a connect request"),
    }).collect();
    assert_eq!(ids, vec!["D0", "D2"]);
    assert_eq!(app.status, "Connecting to all devices...");
    let a = disconnect_all(&mut app);
    let ids: Vec<&str> = a.iter().map(|x| match x {
        UiAction::Disconnect { device_id } => device_id.as_str(),
        _ => panic!("expected a disconnect request"),
    }).collect();
    assert_eq!(ids, vec!["D1", "D3"]);
    assert_eq!(app.status, "Disconnecting from all devices...");
}

#[test]
fn list_entry_texts() {
    assert_eq!(showing_text(2, 5), "Showing 2 of 5");
    assert_eq!(list_kind_label(DeviceType::Aranet2), "T/H");
    assert_eq!(list_kind_label(DeviceType::AranetRadiation), "Rad");
    assert_eq!(list_signal_text(-67), "-67dB");
    assert_eq!(list_battery_badge(20), None);
    assert_eq!(list_battery_badge(7).as_deref(), Some("7% bat"));
    let mut r = CurrentReading { co2: 640, humidity: 40, battery: 80, interval: 60, age: 1, radon: Some(30) };
    assert_eq!(primary_value(&r), PrimaryValue::Co2(640));
    r.co2 = 0;
    assert_eq!(primary_value(&r), PrimaryValue::Radon(30));
    r.radon = None;
    assert_eq!(primary_value(&r), PrimaryValue::Other);
}

#[test]
fn status_bar_parts() {
    let t = Theme::light();
    let mut devices = sample_devices();
    assert_eq!(status_dot_color(&t, true, &devices), t.warning);
    assert_eq!(status_dot_color(&t, false, &devices), t.success);
    devices[1].connection = ConnectionState::Disconnected;
    devices[3].connection = ConnectionState::Connecting;
    assert_eq!(status_dot_color(&t, false, &devices), t.text_muted);
    assert!(is_recent_alert(AlertSeverity::Warning, 299_999_999_999));
    assert!(!is_recent_alert(AlertSeverity::Critical, 300_000_000_000));
    assert!(!is_recent_alert(AlertSeverity::Info, 0));
    assert_eq!(alerts_button(&t, 0, false), ("Alerts".to_string(), t.text_muted));
    assert_eq!(alerts_button(&t, 3, true), ("Alerts (3)".to_string(), t.warning));
    let mut log = AlertHistory::new(10);
    assert!(!has_recent_alerts(&log));
    log.check_and_log_co2_alert("Office", 1600);
    assert!(has_recent_alerts(&log));
    log.clear();
    assert_eq!(log.len(), 0);
    assert_eq!(log.max_len(), 10);
    assert!(screenshot_due(3, 3) && !screenshot_due(2, 3));
}

#[test]
fn sidebar_buttons_save() {
    let mut u = ui();
    let a = set_sidebar_collapsed(&mut u, true);
    assert!(u.sidebar_collapsed);
    assert!(matches!(a.as_slice(), [UiAction::SaveSidebar]));
    set_sidebar_collapsed(&mut u, false);
    assert!(!u.sidebar_collapsed);
}

#[test]
fn export_outcome_toasts() {
    let mut app = AppState::new(TrayState::default());
    export_finished(&mut app, 12, Ok("office.csv".to_string()));
    assert_eq!(app.toasts.last().unwrap().message, "Exported 12 records to office.csv");
    assert!(matches!(app.toasts.last().unwrap().toast_type, ToastType::Success));
    export_finished(&mut app, 0, Err("disk full".to_string()));
    assert_eq!(app.toasts.last().unwrap().message, "Export failed: disk full");
    assert!(matches!(app.toasts.last().unwrap().toast_type, ToastType::Error));
}
