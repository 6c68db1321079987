//! The application settings screen: each choice updates the saved
//! interface preferences (and the state that mirrors them), and says what
//! the caller does next.
//!
//! A choice of the value already selected does nothing.

use vstd::prelude::*;
use crate::text::str_eq;
use crate::theme::ThemeMode;
use crate::tray::TrayState;
use crate::ui::{GuiPrefs, UiState};

verus! {

/// The preferences kept apart from the interface ones, each saved on its
/// own when changed.
#[derive(Debug, Clone, Copy, PartialEq, Eq, Structural)]
pub struct BehaviorPrefs {
    /// Connect to known devices on startup.
    pub auto_connect: bool,
    /// Download history when connecting to a device.
    pub auto_sync: bool,
    /// Remember devices between sessions.
    pub remember_devices: bool,
    /// Load cached data on startup.
    pub load_cache: bool,
}

/// A choice on the settings screen.
#[derive(Debug, Clone, Copy, PartialEq, Eq, Structural)]
pub enum PrefChoice {
    /// Light (`true`) or dark theme.
    LightTheme(bool),
    CompactMode(bool),
    ColoredTrayIcon(bool),
    Notifications(bool),
    NotificationSound(bool),
    CloseToTray(bool),
    StartMinimized(bool),
    /// Fahrenheit (`true`) or Celsius.
    Fahrenheit(bool),
    /// Inches of mercury (`true`) or hectopascals.
    InchesOfMercury(bool),
    /// JSON (`true`) or CSV exports.
    JsonExports(bool),
    /// Back to the downloads folder for exports.
    ResetExportDirectory,
    AutoConnect(bool),
    AutoSync(bool),
    RememberDevices(bool),
    LoadCache(bool),
}

/// What the caller does after a choice.
#[derive(Debug, Clone, Copy, PartialEq, Eq, Structural)]
pub struct PrefOutcome {
    /// Save the interface preferences.
    pub save_prefs: bool,
    /// Save the behavior preferences.
    pub save_behavior: bool,
    /// Rebuild the style from the theme mode and compactness (and show the
    /// theme mode in the menu).
    pub restyle: bool,
    /// Redraw the tray icon.
    pub refresh_tray: bool,
}

/// Nothing to do.
pub open spec fn no_outcome() -> PrefOutcome {
    PrefOutcome { save_prefs: false, save_behavior: false, restyle: false, refresh_tray: false }
}

/// Only the interface preferences are saved.
pub open spec fn save_only() -> PrefOutcome {
    PrefOutcome { save_prefs: true, ..no_outcome() }
}

/// Whether a choice picks the value already selected (or a control that
/// is not shown: the sound with notifications off, the tray behaviors
/// without a tray, the reset without a custom folder).
pub open spec fn choice_is_current(
    c: PrefChoice,
    p: GuiPrefs,
    b: BehaviorPrefs,
    ui: UiState,
    tray_available: bool,
) -> bool {
    match c {
        PrefChoice::LightTheme(light) => ui.theme@ == (if light {
            "light"@
        } else {
            "dark"@
        }),
        PrefChoice::CompactMode(v) => p.compact_mode == v,
        PrefChoice::ColoredTrayIcon(v) => p.colored_tray_icon == v,
        PrefChoice::Notifications(v) => ui.notifications_enabled == v,
        PrefChoice::NotificationSound(v) => !ui.notifications_enabled || p.notification_sound == v,
        PrefChoice::CloseToTray(v) => !tray_available || p.close_to_tray == v,
        PrefChoice::StartMinimized(v) => !tray_available || p.start_minimized == v,
        PrefChoice::Fahrenheit(v) => p.temperature_unit@ == (if v {
            "fahrenheit"@
        } else {
            "celsius"@
        }),
        PrefChoice::InchesOfMercury(v) => p.pressure_unit@ == (if v {
            "inhg"@
        } else {
            "hpa"@
        }),
        PrefChoice::JsonExports(v) => p.default_export_format@ == (if v {
            "json"@
        } else {
            "csv"@
        }),
        PrefChoice::ResetExportDirectory => p.export_directory@.len() == 0,
        PrefChoice::AutoConnect(v) => b.auto_connect == v,
        PrefChoice::AutoSync(v) => b.auto_sync == v,
        PrefChoice::RememberDevices(v) => b.remember_devices == v,
        PrefChoice::LoadCache(v) => b.load_cache == v,
    }
}

/// The preferences, interface state and tray after a choice that changes
/// something, and what the caller does next.
#[verifier::opaque]
pub open spec fn choice_applied(
    c: PrefChoice,
    op: GuiPrefs,
    np: GuiPrefs,
    ob: BehaviorPrefs,
    nb: BehaviorPrefs,
    ou: UiState,
    nu: UiState,
    ot: TrayState,
    nt: TrayState,
    r: PrefOutcome,
) -> bool {
    match c {
        PrefChoice::LightTheme(light) => {
            let name = if light {
                "light"@
            } else {
                "dark"@
            };
            &&& np.theme@ == name
            &&& np == (GuiPrefs { theme: np.theme, ..op })
            &&& nu.theme@ == name
            &&& nu == (UiState {
                theme: nu.theme,
                theme_mode: if light {
                    ThemeMode::Light
                } else {
                    ThemeMode::Dark
                },
                ..ou
            })
            &&& nb == ob && nt == ot
            &&& r == PrefOutcome { restyle: true, ..save_only() }
        },
        PrefChoice::CompactMode(v) => {
            &&& np == (GuiPrefs { compact_mode: v, ..op })
            &&& nb == ob && nu == ou && nt == ot
            &&& r == PrefOutcome { restyle: true, ..save_only() }
        },
        PrefChoice::ColoredTrayIcon(v) => {
            &&& np == (GuiPrefs { colored_tray_icon: v, ..op })
            &&& nt == (TrayState { colored_tray_icon: v, ..ot })
            &&& nb == ob && nu == ou
            &&& r == PrefOutcome { refresh_tray: true, ..save_only() }
        },
        PrefChoice::Notifications(v) => {
            &&& np == (GuiPrefs { notifications_enabled: v, ..op })
            &&& nu == (UiState { notifications_enabled: v, ..ou })
            &&& nt == (TrayState { notifications_enabled: v, ..ot })
            &&& nb == ob
            &&& r == save_only()
        },
        PrefChoice::NotificationSound(v) => {
            &&& np == (GuiPrefs { notification_sound: v, ..op })
            &&& nt == (TrayState { notification_sound: v, ..ot })
            &&& nb == ob && nu == ou
            &&& r == save_only()
        },
        PrefChoice::CloseToTray(v) => {
            &&& np == (GuiPrefs { close_to_tray: v, ..op })
            &&& nb == ob && nu == ou && nt == ot
            &&& r == save_only()
        },
        PrefChoice::StartMinimized(v) => {
            &&& np == (GuiPrefs { start_minimized: v, ..op })
            &&& nb == ob && nu == ou && nt == ot
            &&& r == save_only()
        },
        PrefChoice::Fahrenheit(v) => {
            &&& np.temperature_unit@ == (if v {
                "fahrenheit"@
            } else {
                "celsius"@
            })
            &&& np == (GuiPrefs { temperature_unit: np.temperature_unit, ..op })
            &&& nb == ob && nu == ou && nt == ot
            &&& r == save_only()
        },
        PrefChoice::InchesOfMercury(v) => {
            &&& np.pressure_unit@ == (if v {
                "inhg"@
            } else {
                "hpa"@
            })
            &&& np == (GuiPrefs { pressure_unit: np.pressure_unit, ..op })
            &&& nb == ob && nu == ou && nt == ot
            &&& r == save_only()
        },
        PrefChoice::JsonExports(v) => {
            &&& np.default_export_format@ == (if v {
                "json"@
            } else {
                "csv"@
            })
            &&& np == (GuiPrefs { default_export_format: np.default_export_format, ..op })
            &&& nb == ob && nu == ou && nt == ot
            &&& r == save_only()
        },
        PrefChoice::ResetExportDirectory => {
            &&& np.export_directory@.len() == 0
            &&& np == (GuiPrefs { export_directory: np.export_directory, ..op })
            &&& nb == ob && nu == ou && nt == ot
            &&& r == save_only()
        },
        PrefChoice::AutoConnect(v) => {
            &&& nb == (BehaviorPrefs { auto_connect: v, ..ob })
            &&& np == op && nu == ou && nt == ot
            &&& r == PrefOutcome { save_behavior: true, ..no_outcome() }
        },
        PrefChoice::AutoSync(v) => {
            &&& nb == (BehaviorPrefs { auto_sync: v, ..ob })
            &&& np == op && nu == ou && nt == ot
            &&& r == PrefOutcome { save_behavior: true, ..no_outcome() }
        },
        PrefChoice::RememberDevices(v) => {
            &&& nb == (BehaviorPrefs { remember_devices: v, ..ob })
            &&& np == op && nu == ou && nt == ot
            &&& r == PrefOutcome { save_behavior: true, ..no_outcome() }
        },
        PrefChoice::LoadCache(v) => {
            &&& nb == (BehaviorPrefs { load_cache: v, ..ob })
            &&& np == op && nu == ou && nt == ot
            &&& r == PrefOutcome { save_behavior: true, ..no_outcome() }
        },
    }
}

/// Whether the choice picks what is already selected.
fn is_current(c: PrefChoice, p: &GuiPrefs, b: &BehaviorPrefs, ui: &UiState, tray_available: bool) -> (r: bool)
    ensures
        r == choice_is_current(c, *p, *b, *ui, tray_available),
{
    match c {
        PrefChoice::LightTheme(light) => str_eq(ui.theme.as_str(), if light {
            "light"
        } else {
            "dark"
        }),
        PrefChoice::CompactMode(v) => p.compact_mode == v,
        PrefChoice::ColoredTrayIcon(v) => p.colored_tray_icon == v,
        PrefChoice::Notifications(v) => ui.notifications_enabled == v,
        PrefChoice::NotificationSound(v) => !ui.notifications_enabled || p.notification_sound == v,
        PrefChoice::CloseToTray(v) => !tray_available || p.close_to_tray == v,
        PrefChoice::StartMinimized(v) => !tray_available || p.start_minimized == v,
        PrefChoice::Fahrenheit(v) => str_eq(p.temperature_unit.as_str(), if v {
            "fahrenheit"
        } else {
            "celsius"
        }),
        PrefChoice::InchesOfMercury(v) => str_eq(p.pressure_unit.as_str(), if v {
            "inhg"
        } else {
            "hpa"
        }),
        PrefChoice::JsonExports(v) => str_eq(p.default_export_format.as_str(), if v {
            "json"
        } else {
            "csv"
        }),
        PrefChoice::ResetExportDirectory => p.export_directory.as_str().unicode_len() == 0,
        PrefChoice::AutoConnect(v) => b.auto_connect == v,
        PrefChoice::AutoSync(v) => b.auto_sync == v,
        PrefChoice::RememberDevices(v) => b.remember_devices == v,
        PrefChoice::LoadCache(v) => b.load_cache == v,
    }
}

/// Nothing to do (as a value).
fn nothing() -> (r: PrefOutcome)
    ensures
        r == no_outcome(),
{
    PrefOutcome { save_prefs: false, save_behavior: false, restyle: false, refresh_tray: false }
}

/// Applies a choice of appearance, units or exports.
#[verifier::rlimit(30)]
fn apply_display(prefs: &mut GuiPrefs, behavior: &BehaviorPrefs, ui: &mut UiState, tray: &TrayState, c: PrefChoice) -> (r: PrefOutcome)
    requires
        c is LightTheme || c is CompactMode || c is CloseToTray || c is StartMinimized || c is Fahrenheit
            || c is InchesOfMercury || c is JsonExports || c is ResetExportDirectory,
    ensures
        choice_applied(c, *old(prefs), *final(prefs), *behavior, *behavior, *old(ui), *final(ui), *tray, *tray, r),
{
    reveal(choice_applied);
    let save = PrefOutcome { save_prefs: true, ..nothing() };
    match c {
        PrefChoice::LightTheme(light) => {
            let name = if light {
                "light"
            } else {
                "dark"
            };
            prefs.theme = String::from_str(name);
            ui.theme = String::from_str(name);
            ui.theme_mode = if light {
                ThemeMode::Light
            } else {
                ThemeMode::Dark
            };
            PrefOutcome { restyle: true, ..save }
        },
        PrefChoice::CompactMode(v) => {
            prefs.compact_mode = v;
            PrefOutcome { restyle: true, ..save }
        },
        PrefChoice::CloseToTray(v) => {
            prefs.close_to_tray = v;
            save
        },
        PrefChoice::StartMinimized(v) => {
            prefs.start_minimized = v;
            save
        },
        PrefChoice::Fahrenheit(v) => {
            prefs.temperature_unit = String::from_str(if v {
                "fahrenheit"
            } else {
                "celsius"
            });
            save
        },
        PrefChoice::InchesOfMercury(v) => {
            prefs.pressure_unit = String::from_str(if v {
                "inhg"
            } else {
                "hpa"
            });
            save
        },
        PrefChoice::JsonExports(v) => {
            prefs.default_export_format = String::from_str(if v {
                "json"
            } else {
                "csv"
            });
            save
        },
        _ => {
            prefs.export_directory = String::new();
            save
        },
    }
}

/// Sets whether the tray icon shows the CO2 color.
fn set_colored(prefs: &mut GuiPrefs, tray: &mut TrayState, v: bool)
    ensures
        *final(prefs) == (GuiPrefs { colored_tray_icon: v, ..*old(prefs) }),
        *final(tray) == (TrayState { colored_tray_icon: v, ..*old(tray) }),
{
    prefs.colored_tray_icon = v;
    tray.colored_tray_icon = v;
}

/// Sets whether notifications are sent.
fn set_notifications(prefs: &mut GuiPrefs, ui: &mut UiState, tray: &mut TrayState, v: bool)
    ensures
        *final(prefs) == (GuiPrefs { notifications_enabled: v, ..*old(prefs) }),
        *final(ui) == (UiState { notifications_enabled: v, ..*old(ui) }),
        *final(tray) == (TrayState { notifications_enabled: v, ..*old(tray) }),
{
    prefs.notifications_enabled = v;
    ui.notifications_enabled = v;
    tray.notifications_enabled = v;
}

/// Sets whether notifications play a sound.
fn set_sound(prefs: &mut GuiPrefs, tray: &mut TrayState, v: bool)
    ensures
        *final(prefs) == (GuiPrefs { notification_sound: v, ..*old(prefs) }),
        *final(tray) == (TrayState { notification_sound: v, ..*old(tray) }),
{
    prefs.notification_sound = v;
    tray.notification_sound = v;
}

/// Applies a choice about notifications or the tray icon.
fn apply_tray(prefs: &mut GuiPrefs, behavior: &BehaviorPrefs, ui: &mut UiState, tray: &mut TrayState, c: PrefChoice) -> (r: PrefOutcome)
    requires
        c is ColoredTrayIcon || c is Notifications || c is NotificationSound,
    ensures
        choice_applied(c, *old(prefs), *final(prefs), *behavior, *behavior, *old(ui), *final(ui), *old(tray), *final(tray), r),
{
    let save = PrefOutcome { save_prefs: true, ..nothing() };
    let r = match c {
        PrefChoice::ColoredTrayIcon(v) => {
            set_colored(prefs, tray, v);
            PrefOutcome { refresh_tray: true, ..save }
        },
        PrefChoice::Notifications(v) => {
            set_notifications(prefs, ui, tray, v);
            save
        },
        PrefChoice::NotificationSound(v) => {
            set_sound(prefs, tray, v);
            save
        },
        _ => save,
    };
    proof {
        reveal(choice_applied);
    }
    r
}

/// Applies a choice of behavior.
fn apply_behavior(prefs: &GuiPrefs, behavior: &mut BehaviorPrefs, ui: &UiState, tray: &TrayState, c: PrefChoice) -> (r: PrefOutcome)
    requires
        c is AutoConnect || c is AutoSync || c is RememberDevices || c is LoadCache,
    ensures
        choice_applied(c, *prefs, *prefs, *old(behavior), *final(behavior), *ui, *ui, *tray, *tray, r),
{
    reveal(choice_applied);
    match c {
        PrefChoice::AutoConnect(v) => behavior.auto_connect = v,
        PrefChoice::AutoSync(v) => behavior.auto_sync = v,
        PrefChoice::RememberDevices(v) => behavior.remember_devices = v,
        PrefChoice::LoadCache(v) => behavior.load_cache = v,
        _ => {},
    }
    PrefOutcome { save_behavior: true, ..nothing() }
}

/// Applies a choice on the settings screen; `tray_available` tells whether
/// the tray behaviors are offered.
#[verifier::rlimit(30)]
pub fn choose_pref(
    prefs: &mut GuiPrefs,
    behavior: &mut BehaviorPrefs,
    ui: &mut UiState,
    tray: &mut TrayState,
    tray_available: bool,
    c: PrefChoice,
) -> (r: PrefOutcome)
    ensures
        choice_is_current(c, *old(prefs), *old(behavior), *old(ui), tray_available) ==> {
            &&& *final(prefs) == *old(prefs)
            &&& *final(behavior) == *old(behavior)
            &&& *final(ui) == *old(ui)
            &&& *final(tray) == *old(tray)
            &&& r == no_outcome()
        },
        !choice_is_current(c, *old(prefs), *old(behavior), *old(ui), tray_available) ==> choice_applied(
            c,
            *old(prefs),
            *final(prefs),
            *old(behavior),
            *final(behavior),
            *old(ui),
            *final(ui),
            *old(tray),
            *final(tray),
            r,
        ),
{
    if is_current(c, prefs, behavior, ui, tray_available) {
        return nothing();
    }
    match c {
        PrefChoice::ColoredTrayIcon(_) | PrefChoice::Notifications(_) | PrefChoice::NotificationSound(
            _,
        ) => apply_tray(prefs, behavior, ui, tray, c),
        PrefChoice::AutoConnect(_) | PrefChoice::AutoSync(_) | PrefChoice::RememberDevices(_)
        | PrefChoice::LoadCache(_) => apply_behavior(prefs, behavior, ui, tray, c),
        _ => apply_display(prefs, behavior, ui, tray, c),
    }
}

/// Choosing the same value twice changes nothing the second time: a choice
/// is idempotent.
pub proof fn lemma_choice_idempotent(
    c: PrefChoice,
    op: GuiPrefs,
    np: GuiPrefs,
    ob: BehaviorPrefs,
    nb: BehaviorPrefs,
    ou: UiState,
    nu: UiState,
    ot: TrayState,
    nt: TrayState,
    r: PrefOutcome,
    tray_available: bool,
)
    requires
        !choice_is_current(c, op, ob, ou, tray_available),
        choice_applied(c, op, np, ob, nb, ou, nu, ot, nt, r),
        c != PrefChoice::NotificationSound(true) && c != PrefChoice::NotificationSound(false)
            || ou.notifications_enabled,
    ensures
        choice_is_current(c, np, nb, nu, tray_available),
{
    reveal(choice_applied);
}

/// The export folder shown: the custom one, or the downloads folder
/// (`downloads`, when known) by default.
pub fn export_location_text(prefs: &GuiPrefs, downloads: Option<String>) -> (r: String)
    ensures
        prefs.export_directory@.len() > 0 ==> r@ == prefs.export_directory@,
        prefs.export_directory@.len() == 0 ==> r@ == match downloads {
            Some(d) => d@,
            None => "Downloads folder"@,
        },
{
    if prefs.export_directory.as_str().unicode_len() > 0 {
        prefs.export_directory.clone()
    } else {
        match downloads {
            Some(d) => d,
            None => String::from_str("Downloads folder"),
        }
    }
}

} // verus!
