//! What the menu bar and the tray icon do: each command changes the
//! interface state and lists the actions that the caller performs (sending
//! a command to the worker, showing the window, opening a page).

use vstd::prelude::*;
use crate::helpers::{ToastType, SCAN_DURATION_SECS};
use crate::menu::MenuCommand;
use crate::session::{kept, toast_added, untouched, AppState, Touched};
use crate::text::push_str;
use crate::theme::{detect_system_theme, toggled, ThemeMode};
use crate::tray::TrayCommand;
use crate::types::Tab;

verus! {

/// Interface settings that the menu and the tray change.
#[derive(Debug)]
pub struct UiState {
    /// The visible tab.
    pub active_tab: Tab,
    /// Whether the main window is visible.
    pub window_visible: bool,
    /// The theme in use.
    pub theme_mode: ThemeMode,
    /// The configured theme: `system`, `light` or `dark`.
    pub theme: String,
    /// Whether connected devices are refreshed automatically.
    pub auto_refresh_enabled: bool,
    /// Whether desktop notifications are enabled.
    pub notifications_enabled: bool,
    /// Whether the CO2 value is shown.
    pub show_co2: bool,
    /// Whether the temperature is shown.
    pub show_temperature: bool,
    /// Whether the humidity is shown.
    pub show_humidity: bool,
    /// Whether the pressure is shown.
    pub show_pressure: bool,
    /// Whether the sidebar is collapsed.
    pub sidebar_collapsed: bool,
    /// Whether alerts stay after the condition improves.
    pub sticky_alerts: bool,
    /// Whether readings are written to the reading log.
    pub logging_enabled: bool,
    /// The reading log, once logging was started.
    pub log_file: Option<String>,
    /// Whether clicking devices picks them for side-by-side comparison.
    pub comparison_mode: bool,
}

/// Something the caller does after a command.
#[derive(Debug)]
pub enum UiAction {
    /// Ask the worker to scan for this many seconds.
    Scan { duration_secs: u64 },
    /// Ask the worker to refresh all devices.
    RefreshAll,
    /// Ask the worker to connect to a device.
    Connect { device_id: String },
    /// Ask the worker to disconnect from a device.
    Disconnect { device_id: String },
    /// Ask the worker to forget a device.
    Forget { device_id: String },
    /// Export the history of the device at this index, as `csv` or `json`.
    ExportHistory { device_index: usize, format: &'static str },
    /// Apply the theme mode to the interface and the menu.
    ApplyTheme,
    /// Save the interface configuration.
    SaveConfig,
    /// Show the auto-refresh setting in the menu.
    SetMenuAutoRefresh(bool),
    /// Show the refresh interval in the menu.
    SetMenuRefreshInterval(u16),
    /// Show the notification setting in the menu.
    SetMenuNotifications(bool),
    /// Show the display toggles in the menu.
    SyncDisplayToggles,
    /// Open a web page.
    OpenUrl(&'static str),
    /// Show, raise and focus the main window.
    ShowWindow,
    /// Hide the main window.
    HideWindow,
    /// Close the application.
    Close,
    /// Ask the worker to refresh one device's reading.
    RefreshReading { device_id: String },
    /// Ask the worker to sync one device's history.
    SyncHistory { device_id: String },
    /// Export the history of the device at this index as the history view
    /// shows it (under its filter), as CSV.
    ExportShownHistory { device_index: usize },
    /// Apply the theme mode to the interface only.
    RestyleTheme,
    /// Save the interface configuration after the sidebar changed.
    SaveSidebar,
    /// Close the alert history and the rename dialog.
    CloseDialogs,
    /// Keep the window open: closing only hides it to the tray.
    CancelClose,
    /// Create the log directory and choose a new reading log, then report
    /// the outcome with `logging_started`.
    StartLogging,
    /// Ask the worker to set a device's measurement interval.
    SetInterval { device_id: String, interval_secs: u16 },
    /// Ask the worker to switch a device's Smart Home integration.
    SetSmartHome { device_id: String, enabled: bool },
    /// Ask the worker to set a device's Bluetooth range.
    SetBluetoothRange { device_id: String, extended: bool },
    /// Ask the worker to store a device's alias (`None` removes it).
    SetAlias { device_id: String, alias: Option<String> },
    /// Ask the worker something about the background service.
    Service(crate::service_panel::ServiceRequest),
}

/// The online documentation.
pub open spec fn docs_url() -> Seq<char> {
    "https://aranet.dev/docs"@
}

/// The issue tracker.
pub open spec fn issues_url() -> Seq<char> {
    "https://github.com/cameronrye/aranet/issues/new"@
}

/// The releases page.
pub open spec fn releases_url() -> Seq<char> {
    "https://github.com/cameronrye/aranet/releases"@
}

/// The text of the about toast.
pub open spec fn about_text(version: Seq<char>) -> Seq<char> {
    "Aranet v"@ + version + "\nMade with ❤️ by Cameron Rye\nrye.dev"@
}

/// A scan request: only when no scan is running, which then starts.
pub open spec fn scan_post(o: AppState, n: AppState, actions: Seq<UiAction>) -> bool {
    if o.scanning {
        &&& kept(o, n, untouched())
        &&& actions.len() == 0
    } else {
        &&& n.scanning
        &&& n.status@ == "Scanning..."@
        &&& kept(o, n, Touched { scanning: true, status: true, ..untouched() })
        &&& actions == seq![UiAction::Scan { duration_secs: SCAN_DURATION_SECS }]
    }
}

/// A refresh of all devices.
pub open spec fn refresh_post(o: AppState, n: AppState, actions: Seq<UiAction>) -> bool {
    &&& n.status@ == "Refreshing all devices..."@
    &&& kept(o, n, Touched { status: true, ..untouched() })
    &&& actions == seq![UiAction::RefreshAll]
}

/// The interface settings are the same except the tab.
pub open spec fn same_ui_but_tab(o: UiState, n: UiState) -> bool {
    n == (UiState { active_tab: n.active_tab, ..o })
}

/// An export of the selected device's history in `format`: refused with a
/// toast without a selection or without history.
pub open spec fn export_post(
    o: AppState,
    n: AppState,
    format: Seq<char>,
    actions: Seq<UiAction>,
) -> bool {
    match o.selected_device {
        None => {
            &&& toast_added(o.toasts@, n.toasts@, "No device selected"@, ToastType::Error)
            &&& kept(o, n, Touched { toasts: true, ..untouched() })
            &&& actions.len() == 0
        },
        Some(i) => if o.devices@[i as int].history@.len() == 0 {
            &&& toast_added(o.toasts@, n.toasts@, "No history to export"@, ToastType::Error)
            &&& kept(o, n, Touched { toasts: true, ..untouched() })
            &&& actions.len() == 0
        } else {
            &&& kept(o, n, untouched())
            &&& actions.len() == 1
            &&& actions[0] matches UiAction::ExportHistory { device_index, format: f } && device_index
                == i && f@ == format
        },
    }
}

/// A command on the device at `idx` (when there is one) with its identifier.
pub open spec fn device_command_post(
    o: AppState,
    n: AppState,
    idx: usize,
    actions: Seq<UiAction>,
    make: spec_fn(Seq<char>, UiAction) -> bool,
) -> bool {
    &&& kept(o, n, untouched())
    &&& if idx < o.devices@.len() {
        actions.len() == 1 && make(o.devices@[idx as int].id@, actions[0])
    } else {
        actions.len() == 0
    }
}

/// What a menu command does to the interface state (`oa`, `ou` before,
/// `na`, `nu` after) and which actions it asks for; `version` is shown in
/// the about toast.
pub open spec fn menu_post(
    oa: AppState,
    na: AppState,
    ou: UiState,
    nu: UiState,
    cmd: MenuCommand,
    version: Seq<char>,
    actions: Seq<UiAction>,
) -> bool {
    match cmd {
        MenuCommand::Scan => scan_post(oa, na, actions) && nu == ou,
        MenuCommand::RefreshAll => refresh_post(oa, na, actions) && nu
            == ou,
        MenuCommand::ExportCsv => export_post(oa, na, "csv"@, actions)
            && nu == ou,
        MenuCommand::ExportJson => export_post(oa, na, "json"@, actions)
            && nu == ou,
        MenuCommand::ToggleTheme => {
            &&& nu == (UiState { theme_mode: toggled(ou.theme_mode), ..ou })
            &&& kept(oa, na, untouched())
            &&& actions == seq![UiAction::ApplyTheme]
        },
        MenuCommand::ThemeSystem | MenuCommand::ThemeLight | MenuCommand::ThemeDark => {
            let (mode, name) = match cmd {
                MenuCommand::ThemeSystem => (ThemeMode::Dark, "system"@),
                MenuCommand::ThemeLight => (ThemeMode::Light, "light"@),
                _ => (ThemeMode::Dark, "dark"@),
            };
            &&& nu.theme_mode == mode
            &&& nu.theme@ == name
            &&& nu == (UiState {
                theme_mode: nu.theme_mode,
                theme: nu.theme,
                ..ou
            })
            &&& kept(oa, na, untouched())
            &&& actions == seq![UiAction::ApplyTheme, UiAction::SaveConfig]
        },
        MenuCommand::ToggleAutoRefresh => {
            &&& nu == (UiState {
                auto_refresh_enabled: !ou.auto_refresh_enabled,
                ..ou
            })
            &&& kept(oa, na, untouched())
            &&& actions == seq![UiAction::SetMenuAutoRefresh(!ou.auto_refresh_enabled)]
        },
        MenuCommand::SetRefreshInterval(secs) => {
            &&& nu == ou
            &&& kept(oa, na, untouched())
            &&& actions == seq![UiAction::SetMenuRefreshInterval(secs)]
        },
        MenuCommand::ToggleNotifications => {
            &&& nu == (UiState {
                notifications_enabled: !ou.notifications_enabled,
                ..ou
            })
            &&& kept(oa, na, untouched())
            &&& actions == seq![
                UiAction::SetMenuNotifications(!ou.notifications_enabled),
                UiAction::SaveConfig,
            ]
        },
        MenuCommand::ToggleCo2Display | MenuCommand::ToggleTemperatureDisplay
        | MenuCommand::ToggleHumidityDisplay | MenuCommand::TogglePressureDisplay => {
            &&& nu == (match cmd {
                MenuCommand::ToggleCo2Display => UiState { show_co2: !ou.show_co2, ..ou },
                MenuCommand::ToggleTemperatureDisplay => UiState {
                    show_temperature: !ou.show_temperature,
                    ..ou
                },
                MenuCommand::ToggleHumidityDisplay => UiState {
                    show_humidity: !ou.show_humidity,
                    ..ou
                },
                _ => UiState { show_pressure: !ou.show_pressure, ..ou },
            })
            &&& kept(oa, na, untouched())
            &&& actions == seq![UiAction::SyncDisplayToggles, UiAction::SaveConfig]
        },
        MenuCommand::ShowDashboard | MenuCommand::ShowHistory | MenuCommand::ShowSettings
        | MenuCommand::ShowService => {
            &&& nu.active_tab == match cmd {
                MenuCommand::ShowDashboard => Tab::Dashboard,
                MenuCommand::ShowHistory => Tab::History,
                MenuCommand::ShowSettings => Tab::Settings,
                _ => Tab::Service,
            }
            &&& same_ui_but_tab(ou, nu)
            &&& kept(oa, na, untouched())
            &&& actions.len() == 0
        },
        MenuCommand::ConnectDevice(idx) => {
            &&& nu == ou
            &&& device_command_post(
                oa,
                na,
                idx,
                actions,
                |id: Seq<char>, a: UiAction| a matches UiAction::Connect { device_id } && device_id@ == id,
            )
        },
        MenuCommand::DisconnectDevice(idx) => {
            &&& nu == ou
            &&& device_command_post(
                oa,
                na,
                idx,
                actions,
                |id: Seq<char>, a: UiAction|
                    a matches UiAction::Disconnect { device_id } && device_id@ == id,
            )
        },
        MenuCommand::ForgetDevice(idx) => {
            &&& nu == ou
            &&& device_command_post(
                oa,
                na,
                idx,
                actions,
                |id: Seq<char>, a: UiAction| a matches UiAction::Forget { device_id } && device_id@ == id,
            )
        },
        MenuCommand::ManageAliases => {
            &&& nu.active_tab == Tab::Settings
            &&& same_ui_but_tab(ou, nu)
            &&& toast_added(
                oa.toasts@,
                na.toasts@,
                "Manage device aliases in Settings"@,
                ToastType::Info,
            )
            &&& kept(oa, na, Touched { toasts: true, ..untouched() })
            &&& actions.len() == 0
        },
        MenuCommand::OpenDocumentation | MenuCommand::ReportIssue | MenuCommand::CheckForUpdates => {
            &&& nu == ou
            &&& kept(oa, na, untouched())
            &&& actions.len() == 1
            &&& actions[0] matches UiAction::OpenUrl(url) && url@ == match cmd {
                MenuCommand::OpenDocumentation => docs_url(),
                MenuCommand::ReportIssue => issues_url(),
                _ => releases_url(),
            }
        },
        MenuCommand::ShowAbout => {
            &&& nu == ou
            &&& toast_added(oa.toasts@, na.toasts@, about_text(version), ToastType::Info)
            &&& kept(oa, na, Touched { toasts: true, ..untouched() })
            &&& actions.len() == 0
        },
        MenuCommand::Quit => {
            &&& nu == ou
            &&& kept(oa, na, untouched())
            &&& actions == seq![UiAction::Close]
        },
    }
}

/// The file menu and quitting.
fn menu_file_command(app: &mut AppState, ui: &mut UiState, cmd: MenuCommand, version: &str) -> (actions: Vec<UiAction>)
    requires
        old(app).wf(),
        cmd is Scan || cmd is RefreshAll || cmd is ExportCsv || cmd is ExportJson || cmd is Quit,
    ensures
        final(app).wf(),
        menu_post(*old(app), *final(app), *old(ui), *final(ui), cmd, version@, actions@),
{
    let mut actions: Vec<UiAction> = Vec::new();
    match cmd {
        MenuCommand::Scan => {
            if !app.scanning {
                app.scanning = true;
                app.status = String::from_str("Scanning...");
                actions.push(UiAction::Scan { duration_secs: SCAN_DURATION_SECS });
            }
        },
        MenuCommand::RefreshAll => {
            app.status = String::from_str("Refreshing all devices...");
            actions.push(UiAction::RefreshAll);
        },
        MenuCommand::ExportCsv => {
            export_selected(app, "csv", &mut actions);
        },
        MenuCommand::ExportJson => {
            export_selected(app, "json", &mut actions);
        },
        MenuCommand::Quit => {
            actions.push(UiAction::Close);
        },
        _ => {},
    }
    actions
}

/// The appearance items of the view menu.
fn menu_theme_command(app: &mut AppState, ui: &mut UiState, cmd: MenuCommand, version: &str) -> (actions: Vec<UiAction>)
    requires
        old(app).wf(),
        cmd is ToggleTheme || cmd is ThemeSystem || cmd is ThemeLight || cmd is ThemeDark,
    ensures
        final(app).wf(),
        menu_post(*old(app), *final(app), *old(ui), *final(ui), cmd, version@, actions@),
{
    let mut actions: Vec<UiAction> = Vec::new();
    match cmd {
        MenuCommand::ToggleTheme => {
            ui.theme_mode.toggle();
            actions.push(UiAction::ApplyTheme);
            proof {
                assert(actions@ =~= seq![UiAction::ApplyTheme]);
            }
        },
        MenuCommand::ThemeSystem => {
            ui.theme_mode = detect_system_theme();
            ui.theme = String::from_str("system");
            actions.push(UiAction::ApplyTheme);
            actions.push(UiAction::SaveConfig);
            proof {
                assert(actions@ =~= seq![UiAction::ApplyTheme, UiAction::SaveConfig]);
            }
        },
        MenuCommand::ThemeLight => {
            ui.theme_mode = ThemeMode::Light;
            ui.theme = String::from_str("light");
            actions.push(UiAction::ApplyTheme);
            actions.push(UiAction::SaveConfig);
            proof {
                assert(actions@ =~= seq![UiAction::ApplyTheme, UiAction::SaveConfig]);
            }
        },
        MenuCommand::ThemeDark => {
            ui.theme_mode = ThemeMode::Dark;
            ui.theme = String::from_str("dark");
            actions.push(UiAction::ApplyTheme);
            actions.push(UiAction::SaveConfig);
            proof {
                assert(actions@ =~= seq![UiAction::ApplyTheme, UiAction::SaveConfig]);
            }
        },
        _ => {},
    }
    actions
}

/// The refresh and notification items of the view menu.
fn menu_refresh_command(app: &mut AppState, ui: &mut UiState, cmd: MenuCommand, version: &str) -> (actions: Vec<UiAction>)
    requires
        old(app).wf(),
        cmd is ToggleAutoRefresh || cmd is SetRefreshInterval || cmd is ToggleNotifications,
    ensures
        final(app).wf(),
        menu_post(*old(app), *final(app), *old(ui), *final(ui), cmd, version@, actions@),
{
    let mut actions: Vec<UiAction> = Vec::new();
    match cmd {
        MenuCommand::ToggleAutoRefresh => {
            ui.auto_refresh_enabled = !ui.auto_refresh_enabled;
            actions.push(UiAction::SetMenuAutoRefresh(ui.auto_refresh_enabled));
            proof {
                assert(actions@ =~= seq![UiAction::SetMenuAutoRefresh(ui.auto_refresh_enabled)]);
            }
        },
        MenuCommand::SetRefreshInterval(secs) => {
            actions.push(UiAction::SetMenuRefreshInterval(secs));
            proof {
                assert(actions@ =~= seq![UiAction::SetMenuRefreshInterval(secs)]);
            }
        },
        MenuCommand::ToggleNotifications => {
            ui.notifications_enabled = !ui.notifications_enabled;
            actions.push(UiAction::SetMenuNotifications(ui.notifications_enabled));
            actions.push(UiAction::SaveConfig);
            proof {
                assert(actions@ =~= seq![UiAction::SetMenuNotifications(ui.notifications_enabled), UiAction::SaveConfig]);
            }
        },
        _ => {},
    }
    actions
}

/// The display toggles of the view menu.
fn menu_display_command(app: &mut AppState, ui: &mut UiState, cmd: MenuCommand, version: &str) -> (actions: Vec<UiAction>)
    requires
        old(app).wf(),
        cmd is ToggleCo2Display || cmd is ToggleTemperatureDisplay || cmd is ToggleHumidityDisplay || cmd is TogglePressureDisplay,
    ensures
        final(app).wf(),
        menu_post(*old(app), *final(app), *old(ui), *final(ui), cmd, version@, actions@),
{
    let mut actions: Vec<UiAction> = Vec::new();
    match cmd {
        MenuCommand::ToggleCo2Display => {
            ui.show_co2 = !ui.show_co2;
            actions.push(UiAction::SyncDisplayToggles);
            actions.push(UiAction::SaveConfig);
            proof {
                assert(actions@ =~= seq![UiAction::SyncDisplayToggles, UiAction::SaveConfig]);
            }
        },
        MenuCommand::ToggleTemperatureDisplay => {
            ui.show_temperature = !ui.show_temperature;
            actions.push(UiAction::SyncDisplayToggles);
            actions.push(UiAction::SaveConfig);
            proof {
                assert(actions@ =~= seq![UiAction::SyncDisplayToggles, UiAction::SaveConfig]);
            }
        },
        MenuCommand::ToggleHumidityDisplay => {
            ui.show_humidity = !ui.show_humidity;
            actions.push(UiAction::SyncDisplayToggles);
            actions.push(UiAction::SaveConfig);
            proof {
                assert(actions@ =~= seq![UiAction::SyncDisplayToggles, UiAction::SaveConfig]);
            }
        },
        MenuCommand::TogglePressureDisplay => {
            ui.show_pressure = !ui.show_pressure;
            actions.push(UiAction::SyncDisplayToggles);
            actions.push(UiAction::SaveConfig);
            proof {
                assert(actions@ =~= seq![UiAction::SyncDisplayToggles, UiAction::SaveConfig]);
            }
        },
        _ => {},
    }
    actions
}

/// The tab items of the view menu.
fn menu_tab_command(app: &mut AppState, ui: &mut UiState, cmd: MenuCommand, version: &str) -> (actions: Vec<UiAction>)
    requires
        old(app).wf(),
        cmd is ShowDashboard || cmd is ShowHistory || cmd is ShowSettings || cmd is ShowService,
    ensures
        final(app).wf(),
        menu_post(*old(app), *final(app), *old(ui), *final(ui), cmd, version@, actions@),
{
    let mut actions: Vec<UiAction> = Vec::new();
    match cmd {
        MenuCommand::ShowDashboard => {
            ui.active_tab = Tab::Dashboard;
        },
        MenuCommand::ShowHistory => {
            ui.active_tab = Tab::History;
        },
        MenuCommand::ShowSettings => {
            ui.active_tab = Tab::Settings;
        },
        MenuCommand::ShowService => {
            ui.active_tab = Tab::Service;
        },
        _ => {},
    }
    actions
}

/// The device menu.
fn menu_device_command(app: &mut AppState, ui: &mut UiState, cmd: MenuCommand, version: &str) -> (actions: Vec<UiAction>)
    requires
        old(app).wf(),
        cmd is ConnectDevice || cmd is DisconnectDevice || cmd is ForgetDevice || cmd is ManageAliases,
    ensures
        final(app).wf(),
        menu_post(*old(app), *final(app), *old(ui), *final(ui), cmd, version@, actions@),
{
    let mut actions: Vec<UiAction> = Vec::new();
    match cmd {
        MenuCommand::ConnectDevice(idx) => {
            if idx < app.devices.len() {
                actions.push(UiAction::Connect { device_id: app.devices[idx].id.clone() });
            }
        },
        MenuCommand::DisconnectDevice(idx) => {
            if idx < app.devices.len() {
                actions.push(UiAction::Disconnect { device_id: app.devices[idx].id.clone() });
            }
        },
        MenuCommand::ForgetDevice(idx) => {
            if idx < app.devices.len() {
                actions.push(UiAction::Forget { device_id: app.devices[idx].id.clone() });
            }
        },
        MenuCommand::ManageAliases => {
            ui.active_tab = Tab::Settings;
            app.add_toast(String::from_str("Manage device aliases in Settings"), ToastType::Info);
        },
        _ => {},
    }
    actions
}

/// The help menu.
fn menu_help_command(app: &mut AppState, ui: &mut UiState, cmd: MenuCommand, version: &str) -> (actions: Vec<UiAction>)
    requires
        old(app).wf(),
        cmd is OpenDocumentation || cmd is ReportIssue || cmd is CheckForUpdates || cmd is ShowAbout,
    ensures
        final(app).wf(),
        menu_post(*old(app), *final(app), *old(ui), *final(ui), cmd, version@, actions@),
{
    let mut actions: Vec<UiAction> = Vec::new();
    match cmd {
        MenuCommand::OpenDocumentation => {
            actions.push(UiAction::OpenUrl("https://aranet.dev/docs"));
        },
        MenuCommand::ReportIssue => {
            actions.push(UiAction::OpenUrl("https://github.com/cameronrye/aranet/issues/new"));
        },
        MenuCommand::CheckForUpdates => {
            actions.push(UiAction::OpenUrl("https://github.com/cameronrye/aranet/releases"));
        },
        MenuCommand::ShowAbout => {
            let mut m = String::from_str("Aranet v");
            push_str(&mut m, version);
            push_str(&mut m, "\nMade with ❤️ by Cameron Rye\nrye.dev");
            app.add_toast(m, ToastType::Info);
        },
        _ => {},
    }
    actions
}

/// Handles a command of the menu bar; `version` is the application version
/// shown in the about toast.
#[verifier::rlimit(30)]
pub fn menu_command(app: &mut AppState, ui: &mut UiState, cmd: MenuCommand, version: &str) -> (actions: Vec<
    UiAction,
>)
    requires
        old(app).wf(),
    ensures
        final(app).wf(),
        menu_post(*old(app), *final(app), *old(ui), *final(ui), cmd, version@, actions@),
{
    match cmd {
        MenuCommand::Scan | MenuCommand::RefreshAll | MenuCommand::ExportCsv
        | MenuCommand::ExportJson | MenuCommand::Quit => menu_file_command(app, ui, cmd, version),
        MenuCommand::ConnectDevice(_) | MenuCommand::DisconnectDevice(_)
        | MenuCommand::ForgetDevice(_) | MenuCommand::ManageAliases => menu_device_command(
            app,
            ui,
            cmd,
            version,
        ),
        MenuCommand::OpenDocumentation | MenuCommand::ReportIssue | MenuCommand::CheckForUpdates
        | MenuCommand::ShowAbout => menu_help_command(app, ui, cmd, version),
        MenuCommand::ToggleTheme | MenuCommand::ThemeSystem | MenuCommand::ThemeLight
        | MenuCommand::ThemeDark => menu_theme_command(app, ui, cmd, version),
        MenuCommand::ToggleAutoRefresh | MenuCommand::SetRefreshInterval(_)
        | MenuCommand::ToggleNotifications => menu_refresh_command(app, ui, cmd, version),
        MenuCommand::ToggleCo2Display | MenuCommand::ToggleTemperatureDisplay
        | MenuCommand::ToggleHumidityDisplay | MenuCommand::TogglePressureDisplay => menu_display_command(
            app,
            ui,
            cmd,
            version,
        ),
        _ => menu_tab_command(app, ui, cmd, version),
    }
}

/// Asks for an export of the selected device's history, or explains in a
/// toast why there is nothing to export.
fn export_selected(app: &mut AppState, format: &'static str, actions: &mut Vec<UiAction>)
    requires
        old(app).wf(),
        old(actions)@.len() == 0,
    ensures
        final(app).wf(),
        export_post(*old(app), *final(app), format@, final(actions)@),
{
    match app.selected_device {
        None => {
            app.add_toast(String::from_str("No device selected"), ToastType::Error);
        },
        Some(i) => {
            if app.devices[i].history.len() == 0 {
                app.add_toast(String::from_str("No history to export"), ToastType::Error);
            } else {
                actions.push(UiAction::ExportHistory { device_index: i, format });
            }
        },
    }
}

/// Handles a command of the tray icon menu.
#[verifier::rlimit(30)]
pub fn tray_command(app: &mut AppState, ui: &mut UiState, cmd: TrayCommand) -> (actions: Vec<UiAction>)
    requires
        old(app).wf(),
    ensures
        final(app).wf(),
        match cmd {
            TrayCommand::ShowWindow => {
                &&& *final(ui) == (UiState { window_visible: true, ..*old(ui) })
                &&& kept(*old(app), *final(app), untouched())
                &&& actions@ == seq![UiAction::ShowWindow]
            },
            TrayCommand::HideWindow => {
                &&& *final(ui) == (UiState { window_visible: false, ..*old(ui) })
                &&& kept(*old(app), *final(app), untouched())
                &&& actions@ == seq![UiAction::HideWindow]
            },
            TrayCommand::ToggleWindow => {
                &&& *final(ui) == (UiState { window_visible: !old(ui).window_visible, ..*old(ui) })
                &&& kept(*old(app), *final(app), untouched())
                &&& actions@ == (if old(ui).window_visible {
                    seq![UiAction::HideWindow]
                } else {
                    seq![UiAction::ShowWindow]
                })
            },
            TrayCommand::Scan => scan_post(*old(app), *final(app), actions@) && *final(ui) == *old(ui),
            TrayCommand::RefreshAll => refresh_post(*old(app), *final(app), actions@) && *final(ui)
                == *old(ui),
            TrayCommand::OpenSettings => {
                &&& final(ui).active_tab == Tab::Settings
                &&& same_ui_but_tab(*old(ui), *final(ui))
                &&& kept(*old(app), *final(app), untouched())
                &&& actions@.len() == 0
            },
            TrayCommand::Quit => {
                &&& *final(ui) == *old(ui)
                &&& kept(*old(app), *final(app), untouched())
                &&& actions@ == seq![UiAction::Close]
            },
        },
{
    let mut actions: Vec<UiAction> = Vec::new();
    match cmd {
        TrayCommand::ShowWindow => {
            ui.window_visible = true;
            actions.push(UiAction::ShowWindow);
        },
        TrayCommand::HideWindow => {
            ui.window_visible = false;
            actions.push(UiAction::HideWindow);
        },
        TrayCommand::ToggleWindow => {
            ui.window_visible = !ui.window_visible;
            if ui.window_visible {
                actions.push(UiAction::ShowWindow);
            } else {
                actions.push(UiAction::HideWindow);
            }
        },
        TrayCommand::Scan => {
            if !app.scanning {
                app.scanning = true;
                app.status = String::from_str("Scanning...");
                actions.push(UiAction::Scan { duration_secs: SCAN_DURATION_SECS });
            }
        },
        TrayCommand::RefreshAll => {
            app.status = String::from_str("Refreshing all devices...");
            actions.push(UiAction::RefreshAll);
        },
        TrayCommand::OpenSettings => {
            ui.active_tab = Tab::Settings;
        },
        TrayCommand::Quit => {
            actions.push(UiAction::Close);
        },
    }
    actions
}

/// After the tray commands, the tray learns whether the window is visible.
pub fn sync_window_visibility(app: &mut AppState, ui: &UiState)
    requires
        old(app).wf(),
    ensures
        final(app).wf(),
        final(app).tray.window_visible == ui.window_visible,
        final(app).tray == (crate::tray::TrayState { window_visible: ui.window_visible, ..old(app).tray }),
        kept(*old(app), *final(app), Touched { tray: true, ..untouched() }),
{
    app.tray.window_visible = ui.window_visible;
}

} // verus!

verus! {

/// The alert thresholds of the settings screen. Each pair is edited with
/// two sliders (CO2 warning 600–1200 ppm and danger 1000–2000 ppm, radon
/// warning 50–200 Bq/m³ and danger 100–300 Bq/m³); moving one slider past
/// the other pushes the other along.
#[derive(Debug, Clone, Copy, PartialEq, Eq, Structural)]
pub struct AlertThresholds {
    pub co2_warning: u16,
    pub co2_danger: u16,
    pub radon_warning: u32,
    pub radon_danger: u32,
}

impl AlertThresholds {
    /// Sets the CO2 warning threshold; a danger threshold at or below it
    /// moves to 50 ppm above it (at most 2000).
    pub fn set_co2_warning(&mut self, ppm: u16)
        requires
            600 <= ppm <= 1200,
        ensures
            final(self).co2_warning == ppm,
            final(self).co2_danger == (if ppm >= old(self).co2_danger {
                if ppm + 50 <= 2000 { (ppm + 50) as u16 } else { 2000u16 }
            } else {
                old(self).co2_danger
            }),
            final(self).radon_warning == old(self).radon_warning,
            final(self).radon_danger == old(self).radon_danger,
            final(self).co2_warning < final(self).co2_danger,
    {
        self.co2_warning = ppm;
        if self.co2_warning >= self.co2_danger {
            let up = self.co2_warning + 50;
            self.co2_danger = if up <= 2000 { up } else { 2000 };
        }
    }

    /// Sets the CO2 danger threshold; a warning threshold at or above it
    /// moves to 50 ppm below it (at least 600).
    pub fn set_co2_danger(&mut self, ppm: u16)
        requires
            1000 <= ppm <= 2000,
        ensures
            final(self).co2_danger == ppm,
            final(self).co2_warning == (if ppm <= old(self).co2_warning {
                if ppm - 50 >= 600 { (ppm - 50) as u16 } else { 600u16 }
            } else {
                old(self).co2_warning
            }),
            final(self).radon_warning == old(self).radon_warning,
            final(self).radon_danger == old(self).radon_danger,
            final(self).co2_warning < final(self).co2_danger,
    {
        self.co2_danger = ppm;
        if self.co2_danger <= self.co2_warning {
            let down = self.co2_danger.saturating_sub(50);
            self.co2_warning = if down >= 600 { down } else { 600 };
        }
    }

    /// Sets the radon warning threshold; a danger threshold at or below it
    /// moves to 10 Bq/m³ above it (at most 300).
    pub fn set_radon_warning(&mut self, bq: u32)
        requires
            50 <= bq <= 200,
        ensures
            final(self).radon_warning == bq,
            final(self).radon_danger == (if bq >= old(self).radon_danger {
                if bq + 10 <= 300 { (bq + 10) as u32 } else { 300u32 }
            } else {
                old(self).radon_danger
            }),
            final(self).co2_warning == old(self).co2_warning,
            final(self).co2_danger == old(self).co2_danger,
            final(self).radon_warning < final(self).radon_danger,
    {
        self.radon_warning = bq;
        if self.radon_warning >= self.radon_danger {
            let up = self.radon_warning + 10;
            self.radon_danger = if up <= 300 { up } else { 300 };
        }
    }

    /// Sets the radon danger threshold; a warning threshold at or above it
    /// moves to 10 Bq/m³ below it (at least 50).
    pub fn set_radon_danger(&mut self, bq: u32)
        requires
            100 <= bq <= 300,
        ensures
            final(self).radon_danger == bq,
            final(self).radon_warning == (if bq <= old(self).radon_warning {
                if bq - 10 >= 50 { (bq - 10) as u32 } else { 50u32 }
            } else {
                old(self).radon_warning
            }),
            final(self).co2_warning == old(self).co2_warning,
            final(self).co2_danger == old(self).co2_danger,
            final(self).radon_warning < final(self).radon_danger,
    {
        self.radon_danger = bq;
        if self.radon_danger <= self.radon_warning {
            let down = self.radon_danger.saturating_sub(10);
            self.radon_warning = if down >= 50 { down } else { 50 };
        }
    }
}

/// What choosing Do Not Disturb on or off in the settings does: when it
/// changes, the preferences and the tray take the new value, a toast
/// confirms it, and the preferences are saved (`true` is returned).
/// Choosing the current value does nothing.
pub fn set_do_not_disturb(app: &mut AppState, prefs: &mut GuiPrefs, enabled: bool) -> (save: bool)
    requires
        old(app).wf(),
    ensures
        final(app).wf(),
        save == (old(prefs).do_not_disturb != enabled),
        !save ==> *final(app) == *old(app) && *final(prefs) == *old(prefs),
        save ==> {
            &&& *final(prefs) == (GuiPrefs { do_not_disturb: enabled, ..*old(prefs) })
            &&& final(app).tray == (crate::tray::TrayState { do_not_disturb: enabled, ..old(app).tray })
            &&& toast_added(
                old(app).toasts@,
                final(app).toasts@,
                if enabled {
                    "Do Not Disturb enabled"@
                } else {
                    "Do Not Disturb disabled"@
                },
                ToastType::Info,
            )
            &&& kept(*old(app), *final(app), Touched { tray: true, toasts: true, ..untouched() })
        },
{
    if prefs.do_not_disturb == enabled {
        return false;
    }
    prefs.do_not_disturb = enabled;
    app.tray.do_not_disturb = enabled;
    let msg = if enabled {
        "Do Not Disturb enabled"
    } else {
        "Do Not Disturb disabled"
    };
    app.add_toast(String::from_str(msg), ToastType::Info);
    true
}

/// The theme mode a theme setting selects in the settings screen: `light`
/// is light, anything else dark.
pub fn settings_theme_mode(theme: &str) -> (r: ThemeMode)
    ensures
        r == (if theme@ == "light"@ {
            ThemeMode::Light
        } else {
            ThemeMode::Dark
        }),
{
    if crate::text::str_eq(theme, "light") {
        ThemeMode::Light
    } else {
        ThemeMode::Dark
    }
}

} // verus!

verus! {

/// A keyboard shortcut of the main window.
#[derive(Debug, Clone, Copy, PartialEq, Eq, Structural)]
pub enum Shortcut {
    /// F5: scan.
    Scan,
    /// Command-R: refresh the connected devices.
    RefreshConnected,
    /// Command-S: sync the selected device's history.
    SyncHistory,
    /// Command-E: export the shown history as CSV.
    ExportCsv,
    /// Command-comma, or 1 to 4: show a tab.
    ShowTab(Tab),
    /// T: switch between light and dark.
    ToggleTheme,
    /// A: switch automatic refresh on or off.
    ToggleAutoRefresh,
    /// [: collapse or expand the sidebar.
    ToggleSidebar,
    /// Command-up or command-down: select the previous or next device.
    Navigate(i8),
    /// Escape: close dialogs.
    CloseDialogs,
}

/// The selection after moving by `delta` in a list of `len` devices, from
/// the current selection (or the first device): kept within the list.
pub open spec fn navigated(selected: Option<usize>, len: int, delta: int) -> int {
    let current: int = match selected {
        Some(s) => s as int,
        None => 0,
    };
    let t = current + delta;
    if t < 0 {
        0
    } else if t > len - 1 {
        len - 1
    } else {
        t
    }
}

/// The connected devices' identifiers, in list order.
pub open spec fn connected_ids(devices: Seq<crate::device::DeviceState>) -> Seq<Seq<char>>
    decreases devices.len(),
{
    if devices.len() == 0 {
        Seq::empty()
    } else {
        let rest = connected_ids(devices.drop_last());
        if devices.last().connection is Connected {
            rest.push(devices.last().id@)
        } else {
            rest
        }
    }
}

/// The refresh requests for the connected devices.
fn refresh_connected(devices: &Vec<crate::device::DeviceState>) -> (r: Vec<UiAction>)
    ensures
        r@.len() == connected_ids(devices@).len(),
        forall|k: int|
            0 <= k < r@.len() ==> (#[trigger] r@[k] matches UiAction::RefreshReading { device_id }
                && device_id@ == connected_ids(devices@)[k]),
{
    let n = devices.len();
    let mut out: Vec<UiAction> = Vec::new();
    let mut i: usize = 0;
    assert(devices@.take(0) =~= Seq::<crate::device::DeviceState>::empty());
    while i < n
        invariant
            n == devices@.len(),
            i <= n,
            out@.len() == connected_ids(devices@.take(i as int)).len(),
            forall|k: int|
                0 <= k < out@.len() ==> (#[trigger] out@[k] matches UiAction::RefreshReading {
                    device_id,
                } && device_id@ == connected_ids(devices@.take(i as int))[k]),
        decreases n - i,
    {
        proof {
            assert(devices@.take(i + 1).drop_last() =~= devices@.take(i as int));
            assert(devices@.take(i + 1).last() == devices@[i as int]);
        }
        match devices[i].connection {
            crate::types::ConnectionState::Connected => {
                out.push(UiAction::RefreshReading { device_id: devices[i].id.clone() });
            },
            _ => {},
        }
        i = i + 1;
    }
    assert(devices@.take(n as int) =~= devices@);
    out
}

/// What syncing the selected device's history does: for a connected
/// device, the request and a toast; otherwise nothing.
pub open spec fn sync_selected_post(oa: AppState, na: AppState, actions: Seq<UiAction>) -> bool {
    match oa.selected_device {
        Some(i) if oa.devices@[i as int].connection is Connected => {
            &&& actions.len() == 1
            &&& actions[0] matches UiAction::SyncHistory { device_id } && device_id@
                == oa.devices@[i as int].id@
            &&& toast_added(
                oa.toasts@,
                na.toasts@,
                "Syncing history for "@ + crate::session::shown_name(oa.devices@[i as int]),
                ToastType::Info,
            )
            &&& kept(oa, na, Touched { toasts: true, ..untouched() })
        },
        _ => kept(oa, na, untouched()) && actions.len() == 0,
    }
}

/// Syncs the selected device's history.
fn sync_selected(app: &mut AppState) -> (actions: Vec<UiAction>)
    requires
        old(app).wf(),
    ensures
        final(app).wf(),
        sync_selected_post(*old(app), *final(app), actions@),
{
    let mut actions: Vec<UiAction> = Vec::new();
    if let Some(i) = app.selected_device {
        let connected = match app.devices[i].connection {
            crate::types::ConnectionState::Connected => true,
            _ => false,
        };
        if connected {
            actions.push(UiAction::SyncHistory { device_id: app.devices[i].id.clone() });
            let mut m = String::from_str("Syncing history for ");
            push_str(&mut m, app.devices[i].display_name());
            app.add_toast(m, ToastType::Info);
        }
    }
    actions
}

/// The export that the shortcut asks for: the selected device's shown
/// history, on the History tab, when it has records.
pub open spec fn export_shown_actions(oa: AppState, ou: UiState) -> Seq<UiAction> {
    match oa.selected_device {
        Some(i) if ou.active_tab == Tab::History && oa.devices@[i as int].history@.len() > 0 => seq![
            UiAction::ExportShownHistory { device_index: i },
        ],
        _ => Seq::<UiAction>::empty(),
    }
}

/// Asks for the export of the shown history.
fn export_shown(app: &AppState, ui: &UiState) -> (actions: Vec<UiAction>)
    requires
        app.wf(),
    ensures
        actions@ == export_shown_actions(*app, *ui),
{
    let mut actions: Vec<UiAction> = Vec::new();
    if ui.active_tab == Tab::History {
        if let Some(i) = app.selected_device {
            if app.devices[i].history.len() > 0 {
                actions.push(UiAction::ExportShownHistory { device_index: i });
            }
        }
    }
    proof {
        assert(actions@ =~= export_shown_actions(*app, *ui));
    }
    actions
}

/// The selection after navigating by `delta` (kept when there are no
/// devices).
pub open spec fn navigated_selection(oa: AppState, delta: i8) -> Option<usize> {
    if oa.devices@.len() == 0 {
        oa.selected_device
    } else {
        Some(navigated(oa.selected_device, oa.devices@.len() as int, delta as int) as usize)
    }
}

/// Moves the selection by `delta` within the list.
fn navigate(app: &mut AppState, delta: i8)
    requires
        old(app).wf(),
    ensures
        final(app).wf(),
        kept(*old(app), *final(app), Touched { selection: true, ..untouched() }),
        final(app).comparison_devices@ == old(app).comparison_devices@,
        final(app).selected_device == navigated_selection(*old(app), delta),
{
    let len = app.devices.len();
    if len > 0 {
        let current: usize = match app.selected_device {
            Some(s) => s,
            None => 0,
        };
        let last: usize = len - 1;
        let idx: usize = if delta < 0 {
            let back: usize = (0i16 - delta as i16) as usize;
            if back > current {
                0
            } else {
                current - back
            }
        } else {
            let ahead: usize = delta as usize;
            if ahead > last - current {
                last
            } else {
                current + ahead
            }
        };
        app.selected_device = Some(idx);
    }
}

/// What a keyboard shortcut does to the interface state and which actions
/// it asks for.
pub open spec fn shortcut_post(
    key: Shortcut,
    oa: AppState,
    na: AppState,
    ou: UiState,
    nu: UiState,
    actions: Seq<UiAction>,
) -> bool {
    match key {
        Shortcut::Scan => {
            &&& kept(oa, na, untouched())
            &&& nu == ou
            &&& actions == (if oa.scanning {
                Seq::<UiAction>::empty()
            } else {
                seq![UiAction::Scan { duration_secs: SCAN_DURATION_SECS }]
            })
        },
        Shortcut::RefreshConnected => {
            &&& kept(oa, na, untouched())
            &&& nu == ou
            &&& actions.len() == connected_ids(oa.devices@).len()
            &&& forall|k: int|
                0 <= k < actions.len() ==> (#[trigger] actions[k] matches UiAction::RefreshReading {
                    device_id,
                } && device_id@ == connected_ids(oa.devices@)[k])
        },
        Shortcut::SyncHistory => nu == ou && sync_selected_post(oa, na, actions),
        Shortcut::ExportCsv => {
            &&& kept(oa, na, untouched())
            &&& nu == ou
            &&& actions == export_shown_actions(oa, ou)
        },
        Shortcut::ShowTab(tab) => {
            &&& kept(oa, na, untouched())
            &&& nu == (UiState { active_tab: tab, ..ou })
            &&& actions.len() == 0
        },
        Shortcut::ToggleTheme => {
            &&& kept(oa, na, untouched())
            &&& nu == (UiState { theme_mode: toggled(ou.theme_mode), ..ou })
            &&& actions == seq![UiAction::RestyleTheme]
        },
        Shortcut::ToggleAutoRefresh => {
            &&& kept(oa, na, untouched())
            &&& nu == (UiState { auto_refresh_enabled: !ou.auto_refresh_enabled, ..ou })
            &&& actions.len() == 0
        },
        Shortcut::ToggleSidebar => {
            &&& kept(oa, na, untouched())
            &&& nu == (UiState { sidebar_collapsed: !ou.sidebar_collapsed, ..ou })
            &&& actions == seq![UiAction::SaveSidebar]
        },
        Shortcut::Navigate(delta) => {
            &&& nu == ou
            &&& actions.len() == 0
            &&& kept(oa, na, Touched { selection: true, ..untouched() })
            &&& na.comparison_devices@ == oa.comparison_devices@
            &&& na.selected_device == navigated_selection(oa, delta)
        },
        Shortcut::CloseDialogs => {
            &&& kept(oa, na, untouched())
            &&& nu == ou
            &&& actions == seq![UiAction::CloseDialogs]
        },
    }
}

/// What a keyboard shortcut does to the interface state and which actions
/// it asks for.
#[verifier::rlimit(30)]
pub fn shortcut(app: &mut AppState, ui: &mut UiState, key: Shortcut) -> (actions: Vec<UiAction>)
    requires
        old(app).wf(),
    ensures
        final(app).wf(),
        shortcut_post(key, *old(app), *final(app), *old(ui), *final(ui), actions@),
{
    let mut actions: Vec<UiAction> = Vec::new();
    match key {
        Shortcut::Scan => {
            if !app.scanning {
                actions.push(UiAction::Scan { duration_secs: SCAN_DURATION_SECS });
            }
        },
        Shortcut::RefreshConnected => {
            actions = refresh_connected(&app.devices);
        },
        Shortcut::SyncHistory => {
            actions = sync_selected(app);
        },
        Shortcut::ExportCsv => {
            actions = export_shown(app, ui);
        },
        Shortcut::ShowTab(tab) => {
            ui.active_tab = tab;
        },
        Shortcut::ToggleTheme => {
            ui.theme_mode.toggle();
            actions.push(UiAction::RestyleTheme);
        },
        Shortcut::ToggleAutoRefresh => {
            ui.auto_refresh_enabled = !ui.auto_refresh_enabled;
        },
        Shortcut::ToggleSidebar => {
            ui.sidebar_collapsed = !ui.sidebar_collapsed;
            actions.push(UiAction::SaveSidebar);
        },
        Shortcut::Navigate(delta) => {
            navigate(app, delta);
        },
        Shortcut::CloseDialogs => {
            actions.push(UiAction::CloseDialogs);
        },
    }
    actions
}

/// A request to close the window: with `close_to_tray` the window is only
/// hidden to the tray.
pub fn close_requested(ui: &mut UiState, close_to_tray: bool) -> (actions: Vec<UiAction>)
    ensures
        close_to_tray ==> *final(ui) == (UiState { window_visible: false, ..*old(ui) }) && actions@
            == seq![UiAction::CancelClose, UiAction::HideWindow],
        !close_to_tray ==> *final(ui) == *old(ui) && actions@.len() == 0,
{
    let mut actions: Vec<UiAction> = Vec::new();
    if close_to_tray {
        ui.window_visible = false;
        actions.push(UiAction::CancelClose);
        actions.push(UiAction::HideWindow);
        assert(actions@ =~= seq![UiAction::CancelClose, UiAction::HideWindow]);
    }
    actions
}

/// Switches sticky alerts on or off, confirmed by a toast.
pub fn toggle_sticky_alerts(app: &mut AppState, ui: &mut UiState)
    requires
        old(app).wf(),
    ensures
        final(app).wf(),
        *final(ui) == (UiState { sticky_alerts: !old(ui).sticky_alerts, ..*old(ui) }),
        toast_added(
            old(app).toasts@,
            final(app).toasts@,
            if final(ui).sticky_alerts {
                "Sticky alerts enabled - alerts won't auto-clear"@
            } else {
                "Sticky alerts disabled"@
            },
            ToastType::Info,
        ),
        kept(*old(app), *final(app), Touched { toasts: true, ..untouched() }),
{
    ui.sticky_alerts = !ui.sticky_alerts;
    let msg = if ui.sticky_alerts {
        "Sticky alerts enabled - alerts won't auto-clear"
    } else {
        "Sticky alerts disabled"
    };
    app.add_toast(String::from_str(msg), ToastType::Info);
}

/// Switches the reading log off, or asks to start a new one: logging only
/// starts once `logging_started` reports where the log is.
pub fn toggle_logging(app: &mut AppState, ui: &mut UiState) -> (actions: Vec<UiAction>)
    requires
        old(app).wf(),
    ensures
        final(app).wf(),
        old(ui).logging_enabled ==> {
            &&& *final(ui) == (UiState { logging_enabled: false, ..*old(ui) })
            &&& toast_added(old(app).toasts@, final(app).toasts@, "Data logging disabled"@, ToastType::Info)
            &&& kept(*old(app), *final(app), Touched { toasts: true, ..untouched() })
            &&& actions@.len() == 0
        },
        !old(ui).logging_enabled ==> {
            &&& *final(ui) == *old(ui)
            &&& kept(*old(app), *final(app), untouched())
            &&& actions@ == seq![UiAction::StartLogging]
        },
{
    let mut actions: Vec<UiAction> = Vec::new();
    if ui.logging_enabled {
        ui.logging_enabled = false;
        app.add_toast(String::from_str("Data logging disabled"), ToastType::Info);
    } else {
        actions.push(UiAction::StartLogging);
        assert(actions@ =~= seq![UiAction::StartLogging]);
    }
    actions
}

/// Records how starting the reading log went: the log's path, or why its
/// directory could not be created.
pub fn logging_started(app: &mut AppState, ui: &mut UiState, outcome: Result<String, String>)
    requires
        old(app).wf(),
    ensures
        final(app).wf(),
        kept(*old(app), *final(app), Touched { toasts: true, ..untouched() }),
        match outcome {
            Ok(path) => {
                &&& *final(ui) == (UiState { logging_enabled: true, log_file: Some(path), ..*old(ui) })
                &&& toast_added(
                    old(app).toasts@,
                    final(app).toasts@,
                    "Logging to "@ + path@,
                    ToastType::Success,
                )
            },
            Err(e) => {
                &&& *final(ui) == *old(ui)
                &&& toast_added(
                    old(app).toasts@,
                    final(app).toasts@,
                    "Failed to create log directory: "@ + e@,
                    ToastType::Error,
                )
            },
        },
{
    match outcome {
        Ok(path) => {
            let mut m = String::from_str("Logging to ");
            push_str(&mut m, path.as_str());
            ui.log_file = Some(path);
            ui.logging_enabled = true;
            app.add_toast(m, ToastType::Success);
        },
        Err(e) => {
            let mut m = String::from_str("Failed to create log directory: ");
            push_str(&mut m, e.as_str());
            app.add_toast(m, ToastType::Error);
        },
    }
}

} // verus!

verus! {

/// The interface preferences saved in the configuration.
#[derive(Debug, Clone)]
pub struct GuiPrefs {
    /// `system`, `light` or `dark`.
    pub theme: String,
    pub sidebar_collapsed: bool,
    pub notifications_enabled: bool,
    pub show_co2: bool,
    pub show_temperature: bool,
    pub show_humidity: bool,
    pub show_pressure: bool,
    pub colored_tray_icon: bool,
    pub notification_sound: bool,
    pub close_to_tray: bool,
    /// Denser spacing and smaller type.
    pub compact_mode: bool,
    pub do_not_disturb: bool,
    pub start_minimized: bool,
    /// `celsius` or `fahrenheit`.
    pub temperature_unit: String,
    /// `hpa` or `inhg`.
    pub pressure_unit: String,
    /// `csv` or `json`.
    pub default_export_format: String,
    /// Where exports go; empty for the downloads folder.
    pub export_directory: String,
    pub thresholds: AlertThresholds,
}

/// The theme mode the saved theme starts in: `light` is light, `system`
/// follows the system appearance, anything else is dark.
pub open spec fn starting_theme_mode(theme: Seq<char>) -> ThemeMode {
    if theme == "light"@ {
        ThemeMode::Light
    } else {
        ThemeMode::Dark
    }
}

impl UiState {
    /// The interface state at start-up: the dashboard, the saved theme and
    /// display preferences, automatic refresh except in demo mode, the
    /// window as the tray says, alerts not sticky and no reading log.
    pub fn from_prefs(prefs: &GuiPrefs, demo_mode: bool, window_visible: bool) -> (r: Self)
        ensures
            r.active_tab == Tab::Dashboard,
            r.window_visible == window_visible,
            r.theme_mode == starting_theme_mode(prefs.theme@),
            r.theme@ == prefs.theme@,
            r.auto_refresh_enabled == !demo_mode,
            r.notifications_enabled == prefs.notifications_enabled,
            r.show_co2 == prefs.show_co2,
            r.show_temperature == prefs.show_temperature,
            r.show_humidity == prefs.show_humidity,
            r.show_pressure == prefs.show_pressure,
            r.sidebar_collapsed == prefs.sidebar_collapsed,
            !r.sticky_alerts,
            !r.logging_enabled,
            r.log_file is None,
            !r.comparison_mode,
    {
        let theme_mode = if crate::text::str_eq(prefs.theme.as_str(), "light") {
            ThemeMode::Light
        } else if crate::text::str_eq(prefs.theme.as_str(), "system") {
            detect_system_theme()
        } else {
            ThemeMode::Dark
        };
        UiState {
            active_tab: Tab::Dashboard,
            window_visible,
            theme_mode,
            theme: prefs.theme.clone(),
            auto_refresh_enabled: !demo_mode,
            notifications_enabled: prefs.notifications_enabled,
            show_co2: prefs.show_co2,
            show_temperature: prefs.show_temperature,
            show_humidity: prefs.show_humidity,
            show_pressure: prefs.show_pressure,
            sidebar_collapsed: prefs.sidebar_collapsed,
            sticky_alerts: false,
            logging_enabled: false,
            log_file: None,
            comparison_mode: false,
        }
    }
}

/// Copies the saved tray preferences into the tray state; closing hides to
/// the tray only when a tray icon exists and the preferences ask for it,
/// which is returned.
pub fn apply_tray_prefs(tray: &mut crate::tray::TrayState, prefs: &GuiPrefs, tray_available: bool) -> (close_to_tray: bool)
    ensures
        *final(tray) == (crate::tray::TrayState {
            colored_tray_icon: prefs.colored_tray_icon,
            notifications_enabled: prefs.notifications_enabled,
            notification_sound: prefs.notification_sound,
            ..*old(tray)
        }),
        close_to_tray == (tray_available && prefs.close_to_tray),
{
    tray.colored_tray_icon = prefs.colored_tray_icon;
    tray.notifications_enabled = prefs.notifications_enabled;
    tray.notification_sound = prefs.notification_sound;
    tray_available && prefs.close_to_tray
}

/// Whether any device has history to export (the menu's export items are
/// enabled then).
pub fn any_history(devices: &Vec<crate::device::DeviceState>) -> (r: bool)
    ensures
        r == exists|k: int| 0 <= k < devices@.len() && (#[trigger] devices@[k]).history@.len() > 0,
{
    let mut i: usize = 0;
    while i < devices.len()
        invariant
            i <= devices@.len(),
            forall|k: int| 0 <= k < i ==> (#[trigger] devices@[k]).history@.len() == 0,
        decreases devices@.len() - i,
    {
        if devices[i].history.len() > 0 {
            return true;
        }
        i = i + 1;
    }
    false
}

} // verus!

verus! {

/// The sidebar's collapse and expand buttons: the sidebar takes the state
/// and the preference is saved.
pub fn set_sidebar_collapsed(ui: &mut UiState, collapsed: bool) -> (actions: Vec<UiAction>)
    ensures
        *final(ui) == (UiState { sidebar_collapsed: collapsed, ..*old(ui) }),
        actions@ == seq![UiAction::SaveSidebar],
{
    ui.sidebar_collapsed = collapsed;
    let mut actions: Vec<UiAction> = Vec::new();
    actions.push(UiAction::SaveSidebar);
    assert(actions@ =~= seq![UiAction::SaveSidebar]);
    actions
}

} // verus!

verus! {

/// Reports how an export went: the number of records and the file written,
/// or why it failed.
pub fn export_finished(app: &mut AppState, record_count: usize, outcome: Result<String, String>)
    requires
        old(app).wf(),
    ensures
        final(app).wf(),
        kept(*old(app), *final(app), Touched { toasts: true, ..untouched() }),
        match outcome {
            Ok(file) => toast_added(
                old(app).toasts@,
                final(app).toasts@,
                "Exported "@ + crate::text::dec(record_count as nat) + " records to "@ + file@,
                ToastType::Success,
            ),
            Err(e) => toast_added(
                old(app).toasts@,
                final(app).toasts@,
                "Export failed: "@ + e@,
                ToastType::Error,
            ),
        },
{
    match outcome {
        Ok(file) => {
            let mut m = String::from_str("Exported ");
            crate::text::push_dec(&mut m, record_count as u64);
            push_str(&mut m, " records to ");
            push_str(&mut m, file.as_str());
            app.add_toast(m, ToastType::Success);
        },
        Err(e) => {
            let mut m = String::from_str("Export failed: ");
            push_str(&mut m, e.as_str());
            app.add_toast(m, ToastType::Error);
        },
    }
}

} // verus!

verus! {

/// The measurement intervals of the connected devices that have a reading,
/// in list order.
pub open spec fn connected_intervals(devices: Seq<crate::device::DeviceState>) -> Seq<u16>
    decreases devices.len(),
{
    if devices.len() == 0 {
        Seq::empty()
    } else {
        let rest = connected_intervals(devices.drop_last());
        let d = devices.last();
        if d.connection is Connected && d.reading is Some {
            rest.push(d.reading->0.interval)
        } else {
            rest
        }
    }
}

/// The measurement intervals of the connected devices that have a reading.
pub fn connected_reading_intervals(devices: &Vec<crate::device::DeviceState>) -> (r: Vec<u16>)
    ensures
        r@ == connected_intervals(devices@),
{
    let n = devices.len();
    let mut out: Vec<u16> = Vec::new();
    let mut i: usize = 0;
    assert(devices@.take(0) =~= Seq::<crate::device::DeviceState>::empty());
    while i < n
        invariant
            n == devices@.len(),
            i <= n,
            out@ == connected_intervals(devices@.take(i as int)),
        decreases n - i,
    {
        proof {
            assert(devices@.take(i + 1).drop_last() =~= devices@.take(i as int));
            assert(devices@.take(i + 1).last() == devices@[i as int]);
        }
        let d = &devices[i];
        if let crate::types::ConnectionState::Connected = d.connection {
            if let Some(reading) = &d.reading {
                out.push(reading.interval);
            }
        }
        i = i + 1;
    }
    assert(devices@.take(n as int) =~= devices@);
    out
}

/// The automatic refresh of connected devices, checked once per frame: the
/// pacing is checked against the connected devices' shortest positive
/// measurement interval (60 s without one), and when a refresh is due every
/// connected device is asked to refresh, in list order. Whether it is due
/// depends on the clock; `AutoRefresh::check` says what holds either way.
pub fn auto_refresh_actions(
    pacing: &mut crate::service::AutoRefresh,
    devices: &Vec<crate::device::DeviceState>,
) -> (actions: Vec<UiAction>)
    ensures
        final(pacing).enabled == old(pacing).enabled,
        !old(pacing).enabled ==> actions@.len() == 0 && final(pacing).last == old(pacing).last,
        old(pacing).enabled && old(pacing).last is None ==> actions@.len() == 0 && final(pacing).last is Some,
        old(pacing).enabled && old(pacing).last is Some ==> final(pacing).last is Some && (final(pacing).last
            != old(pacing).last ==> actions@.len() == connected_ids(devices@).len()),
        actions@.len() == 0 || {
            &&& actions@.len() == connected_ids(devices@).len()
            &&& forall|k: int|
                0 <= k < actions@.len() ==> (#[trigger] actions@[k] matches UiAction::RefreshReading {
                    device_id,
                } && device_id@ == connected_ids(devices@)[k])
        },
{
    let intervals = connected_reading_intervals(devices);
    if pacing.check(intervals.as_slice()) {
        refresh_connected(devices)
    } else {
        Vec::new()
    }
}

} // verus!
