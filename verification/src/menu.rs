//! The native menu bar: its commands and the check marks that mirror the
//! application settings.

use vstd::prelude::*;
use crate::text::str_eq;

verus! {

/// Commands triggered from the menu bar.
#[derive(Debug, Clone, Copy, PartialEq, Eq, Structural)]
pub enum MenuCommand {
    /// Scan for nearby devices.
    Scan,
    /// Refresh all connected devices.
    RefreshAll,
    /// Export history as CSV.
    ExportCsv,
    /// Export history as JSON.
    ExportJson,
    /// Toggle dark/light theme.
    ToggleTheme,
    /// Follow the system theme.
    ThemeSystem,
    /// Light theme.
    ThemeLight,
    /// Dark theme.
    ThemeDark,
    /// Toggle auto-refresh.
    ToggleAutoRefresh,
    /// Set the refresh interval, in seconds.
    SetRefreshInterval(u16),
    /// Toggle notifications.
    ToggleNotifications,
    /// Toggle the CO2 display.
    ToggleCo2Display,
    /// Toggle the temperature display.
    ToggleTemperatureDisplay,
    /// Toggle the humidity display.
    ToggleHumidityDisplay,
    /// Toggle the pressure display.
    TogglePressureDisplay,
    /// Switch to the dashboard tab.
    ShowDashboard,
    /// Switch to the history tab.
    ShowHistory,
    /// Switch to the settings tab.
    ShowSettings,
    /// Switch to the service tab.
    ShowService,
    /// Connect to the device at an index.
    ConnectDevice(usize),
    /// Disconnect the device at an index.
    DisconnectDevice(usize),
    /// Open the device aliases configuration.
    ManageAliases,
    /// Forget the device at an index.
    ForgetDevice(usize),
    /// Open the online documentation.
    OpenDocumentation,
    /// Open the issue tracker.
    ReportIssue,
    /// Check for updates.
    CheckForUpdates,
    /// Show the about dialog.
    ShowAbout,
    /// Quit the application.
    Quit,
}

/// The check marks of the appearance items (system, light, dark) for a theme
/// name: `system` and `light` check their own item, anything else checks dark.
pub open spec fn theme_marks(theme: Seq<char>) -> (bool, bool, bool) {
    if theme == "system"@ {
        (true, false, false)
    } else if theme == "light"@ {
        (false, true, false)
    } else {
        (false, false, true)
    }
}

/// The check marks of the appearance items for a theme name.
pub fn theme_check_marks(theme: &str) -> (r: (bool, bool, bool))
    ensures
        r == theme_marks(theme@),
{
    if str_eq(theme, "system") {
        (true, false, false)
    } else if str_eq(theme, "light") {
        (false, true, false)
    } else {
        (false, false, true)
    }
}

/// The theme name selected by the legacy dark-mode switch.
pub fn dark_mode_theme(dark_mode: bool) -> (r: &'static str)
    ensures
        r@ == (if dark_mode { "dark"@ } else { "light"@ }),
{
    if dark_mode { "dark" } else { "light" }
}

/// The check marks of the refresh-interval items (30 s, 1 min, 5 min, 10 min).
pub fn interval_check_marks(seconds: u16) -> (r: (bool, bool, bool, bool))
    ensures
        r == (seconds == 30, seconds == 60, seconds == 300, seconds == 600),
{
    (seconds == 30, seconds == 60, seconds == 300, seconds == 600)
}

/// At most one refresh-interval item is checked.
pub proof fn lemma_one_interval_checked(seconds: u16)
    ensures
        ({
            let r = (seconds == 30, seconds == 60, seconds == 300, seconds == 600);
            (if r.0 { 1int } else { 0 }) + (if r.1 { 1int } else { 0 }) + (if r.2 { 1int } else { 0 })
                + (if r.3 { 1int } else { 0 }) <= 1
        }),
{
}

/// Exactly one appearance item is checked for any theme name.
pub proof fn lemma_one_theme_checked(theme: Seq<char>)
    ensures
        ({
            let m = theme_marks(theme);
            (if m.0 { 1int } else { 0 }) + (if m.1 { 1int } else { 0 }) + (if m.2 { 1int } else { 0 }) == 1
        }),
{
}

} // verus!

verus! {

/// An item of the application menu that sends a command when chosen.
#[derive(Debug, Clone, Copy, PartialEq, Eq, Structural)]
pub enum MenuItem {
    Scan,
    RefreshAll,
    ExportCsv,
    ExportJson,
    ThemeSystem,
    ThemeLight,
    ThemeDark,
    ToggleTheme,
    AutoRefresh,
    Interval30s,
    Interval1m,
    Interval5m,
    Interval10m,
    Notifications,
    ShowCo2,
    ShowTemperature,
    ShowHumidity,
    ShowPressure,
    Dashboard,
    History,
    Settings,
    Service,
    ManageAliases,
    Documentation,
    ReportIssue,
    CheckUpdates,
    About,
}

/// The command a menu item sends; the interval items set 30 seconds, one,
/// five and ten minutes.
pub open spec fn item_command(item: MenuItem) -> MenuCommand {
    match item {
        MenuItem::Scan => MenuCommand::Scan,
        MenuItem::RefreshAll => MenuCommand::RefreshAll,
        MenuItem::ExportCsv => MenuCommand::ExportCsv,
        MenuItem::ExportJson => MenuCommand::ExportJson,
        MenuItem::ThemeSystem => MenuCommand::ThemeSystem,
        MenuItem::ThemeLight => MenuCommand::ThemeLight,
        MenuItem::ThemeDark => MenuCommand::ThemeDark,
        MenuItem::ToggleTheme => MenuCommand::ToggleTheme,
        MenuItem::AutoRefresh => MenuCommand::ToggleAutoRefresh,
        MenuItem::Interval30s => MenuCommand::SetRefreshInterval(30),
        MenuItem::Interval1m => MenuCommand::SetRefreshInterval(60),
        MenuItem::Interval5m => MenuCommand::SetRefreshInterval(300),
        MenuItem::Interval10m => MenuCommand::SetRefreshInterval(600),
        MenuItem::Notifications => MenuCommand::ToggleNotifications,
        MenuItem::ShowCo2 => MenuCommand::ToggleCo2Display,
        MenuItem::ShowTemperature => MenuCommand::ToggleTemperatureDisplay,
        MenuItem::ShowHumidity => MenuCommand::ToggleHumidityDisplay,
        MenuItem::ShowPressure => MenuCommand::TogglePressureDisplay,
        MenuItem::Dashboard => MenuCommand::ShowDashboard,
        MenuItem::History => MenuCommand::ShowHistory,
        MenuItem::Settings => MenuCommand::ShowSettings,
        MenuItem::Service => MenuCommand::ShowService,
        MenuItem::ManageAliases => MenuCommand::ManageAliases,
        MenuItem::Documentation => MenuCommand::OpenDocumentation,
        MenuItem::ReportIssue => MenuCommand::ReportIssue,
        MenuItem::CheckUpdates => MenuCommand::CheckForUpdates,
        MenuItem::About => MenuCommand::ShowAbout,
    }
}

/// The command a menu item sends.
pub fn menu_item_command(item: MenuItem) -> (r: MenuCommand)
    ensures
        r == item_command(item),
{
    match item {
        MenuItem::Scan => MenuCommand::Scan,
        MenuItem::RefreshAll => MenuCommand::RefreshAll,
        MenuItem::ExportCsv => MenuCommand::ExportCsv,
        MenuItem::ExportJson => MenuCommand::ExportJson,
        MenuItem::ThemeSystem => MenuCommand::ThemeSystem,
        MenuItem::ThemeLight => MenuCommand::ThemeLight,
        MenuItem::ThemeDark => MenuCommand::ThemeDark,
        MenuItem::ToggleTheme => MenuCommand::ToggleTheme,
        MenuItem::AutoRefresh => MenuCommand::ToggleAutoRefresh,
        MenuItem::Interval30s => MenuCommand::SetRefreshInterval(30),
        MenuItem::Interval1m => MenuCommand::SetRefreshInterval(60),
        MenuItem::Interval5m => MenuCommand::SetRefreshInterval(300),
        MenuItem::Interval10m => MenuCommand::SetRefreshInterval(600),
        MenuItem::Notifications => MenuCommand::ToggleNotifications,
        MenuItem::ShowCo2 => MenuCommand::ToggleCo2Display,
        MenuItem::ShowTemperature => MenuCommand::ToggleTemperatureDisplay,
        MenuItem::ShowHumidity => MenuCommand::ToggleHumidityDisplay,
        MenuItem::ShowPressure => MenuCommand::TogglePressureDisplay,
        MenuItem::Dashboard => MenuCommand::ShowDashboard,
        MenuItem::History => MenuCommand::ShowHistory,
        MenuItem::Settings => MenuCommand::ShowSettings,
        MenuItem::Service => MenuCommand::ShowService,
        MenuItem::ManageAliases => MenuCommand::ManageAliases,
        MenuItem::Documentation => MenuCommand::OpenDocumentation,
        MenuItem::ReportIssue => MenuCommand::ReportIssue,
        MenuItem::CheckUpdates => MenuCommand::CheckForUpdates,
        MenuItem::About => MenuCommand::ShowAbout,
    }
}

/// The commands of the menu items chosen since the last frame, in order.
pub fn menu_commands_of(items: &Vec<MenuItem>) -> (r: Vec<MenuCommand>)
    ensures
        r@.len() == items@.len(),
        forall|k: int| 0 <= k < items@.len() ==> #[trigger] r@[k] == item_command(items@[k]),
{
    let mut out: Vec<MenuCommand> = Vec::new();
    let mut i: usize = 0;
    while i < items.len()
        invariant
            i <= items@.len(),
            out@.len() == i,
            forall|k: int| 0 <= k < i ==> #[trigger] out@[k] == item_command(items@[k]),
        decreases items@.len() - i,
    {
        out.push(menu_item_command(items[i]));
        i = i + 1;
    }
    out
}

} // verus!
