use aranet_cli::helpers::ToastType;
use aranet_cli::history::HistoryRecord;
use aranet_cli::menu::{menu_commands_of, menu_item_command, MenuCommand, MenuItem};
use aranet_cli::session::{AppState, DiscoveredDevice, SensorEvent};
use aranet_cli::theme::ThemeMode;
use aranet_cli::tray::{TrayCommand, TrayState};
use aranet_cli::types::Tab;
use aranet_cli::ui::{menu_command, sync_window_visibility, tray_command, UiAction, UiState};

fn ui() -> UiState {
    UiState {
        active_tab: Tab::Dashboard,
        window_visible: true,
        theme_mode: ThemeMode::Light,
        theme: "light".to_string(),
        auto_refresh_enabled: true,
        notifications_enabled: false,
        show_co2: true,
        show_temperature: true,
        show_humidity: true,
        show_pressure: true,
        sidebar_collapsed: false,
        sticky_alerts: false,
        logging_enabled: false,
        log_file: None,
        comparison_mode: false,
    }
}

fn app_with_device() -> AppState {
    let mut app = AppState::new(TrayState::default());
    app.handle_event(SensorEvent::ScanComplete {
        devices: vec![DiscoveredDevice {
            identifier: "AA:BB".to_string(),
            name: None,
            device_type: None,
            rssi: None,
        }],
    });
    app
}

#[test]
fn scan_only_when_idle() {
    let mut app = AppState::new(TrayState::default());
    let mut u = ui();
    let actions = menu_command(&mut app, &mut u, MenuCommand::Scan, "1.0");
    assert!(matches!(actions.as_slice(), [UiAction::Scan { duration_secs: 5 }]));
    assert!(app.scanning);
    assert_eq!(app.status, "Scanning...");
    let again = menu_command(&mut app, &mut u, MenuCommand::Scan, "1.0");
    assert!(again.is_empty());
    let tray = tray_command(&mut app, &mut u, TrayCommand::Scan);
    assert!(tray.is_empty());
}

#[test]
fn refresh_all_sets_status() {
    let mut app = AppState::new(TrayState::default());
    let mut u = ui();
    let actions = tray_command(&mut app, &mut u, TrayCommand::RefreshAll);
    assert!(matches!(actions.as_slice(), [UiAction::RefreshAll]));
    assert_eq!(app.status, "Refreshing all devices...");
}

#[test]
fn export_needs_selection_and_history() {
    let mut app = AppState::new(TrayState::default());
    let mut u = ui();
    let actions = menu_command(&mut app, &mut u, MenuCommand::ExportCsv, "1.0");
    assert!(actions.is_empty());
    let t = app.toasts.last().unwrap();
    assert_eq!((t.message.as_str(), t.toast_type), ("No device selected", ToastType::Error));

    let mut app = app_with_device();
    let actions = menu_command(&mut app, &mut u, MenuCommand::ExportJson, "1.0");
    assert!(actions.is_empty());
    assert_eq!(app.toasts.last().unwrap().message, "No history to export");

    app.devices[0].history.push(HistoryRecord { timestamp_nanos: 0, co2: 500, humidity: 40, radon: None });
    let actions = menu_command(&mut app, &mut u, MenuCommand::ExportJson, "1.0");
    assert!(matches!(actions.as_slice(), [UiAction::ExportHistory { device_index: 0, format: "json" }]));
}

#[test]
fn theme_commands() {
    let mut app = AppState::new(TrayState::default());
    let mut u = ui();
    let actions = menu_command(&mut app, &mut u, MenuCommand::ToggleTheme, "1.0");
    assert_eq!(u.theme_mode, ThemeMode::Dark);
    assert!(matches!(actions.as_slice(), [UiAction::ApplyTheme]));
    let actions = menu_command(&mut app, &mut u, MenuCommand::ThemeLight, "1.0");
    assert_eq!(u.theme_mode, ThemeMode::Light);
    assert_eq!(u.theme, "light");
    assert!(matches!(actions.as_slice(), [UiAction::ApplyTheme, UiAction::SaveConfig]));
    menu_command(&mut app, &mut u, MenuCommand::ThemeSystem, "1.0");
    assert_eq!(u.theme, "system");
    assert_eq!(u.theme_mode, ThemeMode::Dark);
}

#[test]
fn toggles_and_tabs() {
    let mut app = AppState::new(TrayState::default());
    let mut u = ui();
    let a = menu_command(&mut app, &mut u, MenuCommand::ToggleAutoRefresh, "1.0");
    assert!(!u.auto_refresh_enabled);
    assert!(matches!(a.as_slice(), [UiAction::SetMenuAutoRefresh(false)]));
    let a = menu_command(&mut app, &mut u, MenuCommand::ToggleNotifications, "1.0");
    assert!(u.notifications_enabled);
    assert!(matches!(a.as_slice(), [UiAction::SetMenuNotifications(true), UiAction::SaveConfig]));
    let a = menu_command(&mut app, &mut u, MenuCommand::TogglePressureDisplay, "1.0");
    assert!(!u.show_pressure && u.show_co2);
    assert!(matches!(a.as_slice(), [UiAction::SyncDisplayToggles, UiAction::SaveConfig]));
    let a = menu_command(&mut app, &mut u, MenuCommand::SetRefreshInterval(300), "1.0");
    assert!(matches!(a.as_slice(), [UiAction::SetMenuRefreshInterval(300)]));
    menu_command(&mut app, &mut u, MenuCommand::ShowService, "1.0");
    assert_eq!(u.active_tab, Tab::Service);
    tray_command(&mut app, &mut u, TrayCommand::OpenSettings);
    assert_eq!(u.active_tab, Tab::Settings);
}

#[test]
fn device_commands_use_identifier() {
    let mut app = app_with_device();
    let mut u = ui();
    let a = menu_command(&mut app, &mut u, MenuCommand::ConnectDevice(0), "1.0");
    assert!(matches!(a.as_slice(), [UiAction::Connect { device_id }] if device_id == "AA:BB"));
    let a = menu_command(&mut app, &mut u, MenuCommand::ForgetDevice(0), "1.0");
    assert!(matches!(a.as_slice(), [UiAction::Forget { device_id }] if device_id == "AA:BB"));
    let a = menu_command(&mut app, &mut u, MenuCommand::DisconnectDevice(5), "1.0");
    assert!(a.is_empty());
    menu_command(&mut app, &mut u, MenuCommand::ManageAliases, "1.0");
    assert_eq!(u.active_tab, Tab::Settings);
    assert_eq!(app.toasts.last().unwrap().message, "Manage device aliases in Settings");
}

#[test]
fn help_commands() {
    let mut app = AppState::new(TrayState::default());
    let mut u = ui();
    let a = menu_command(&mut app, &mut u, MenuCommand::OpenDocumentation, "1.0");
    assert!(matches!(a.as_slice(), [UiAction::OpenUrl("https://aranet.dev/docs")]));
    let a = menu_command(&mut app, &mut u, MenuCommand::ReportIssue, "1.0");
    assert!(matches!(a.as_slice(), [UiAction::OpenUrl("https://github.com/cameronrye/aranet/issues/new")]));
    menu_command(&mut app, &mut u, MenuCommand::ShowAbout, "0.3.1");
    let t = app.toasts.last().unwrap();
    assert_eq!(t.message, "Aranet v0.3.1\nMade with ❤️ by Cameron Rye\nrye.dev");
    assert_eq!(t.toast_type, ToastType::Info);
    let a = menu_command(&mut app, &mut u, MenuCommand::Quit, "1.0");
    assert!(matches!(a.as_slice(), [UiAction::Close]));
}

#[test]
fn window_visibility_follows_tray() {
    let mut app = AppState::new(TrayState::default());
    let mut u = ui();
    let a = tray_command(&mut app, &mut u, TrayCommand::ToggleWindow);
    assert!(!u.window_visible);
    assert!(matches!(a.as_slice(), [UiAction::HideWindow]));
    let a = tray_command(&mut app, &mut u, TrayCommand::ToggleWindow);
    assert!(u.window_visible);
    assert!(matches!(a.as_slice(), [UiAction::ShowWindow]));
    tray_command(&mut app, &mut u, TrayCommand::HideWindow);
    sync_window_visibility(&mut app, &u);
    assert!(!app.tray.window_visible);
    let a = tray_command(&mut app, &mut u, TrayCommand::Quit);
    assert!(matches!(a.as_slice(), [UiAction::Close]));
}

#[test]
fn menu_items_send_their_commands() {
    let items = vec![MenuItem::Interval30s, MenuItem::ShowHumidity, MenuItem::About, MenuItem::Scan, MenuItem::Interval10m];
    assert_eq!(
        menu_commands_of(&items),
        vec![
            MenuCommand::SetRefreshInterval(30),
            MenuCommand::ToggleHumidityDisplay,
            MenuCommand::ShowAbout,
            MenuCommand::Scan,
            MenuCommand::SetRefreshInterval(600),
        ]
    );
    assert_eq!(menu_item_command(MenuItem::CheckUpdates), MenuCommand::CheckForUpdates);
    assert_eq!(menu_item_command(MenuItem::AutoRefresh), MenuCommand::ToggleAutoRefresh);
}
