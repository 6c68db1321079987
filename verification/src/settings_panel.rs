//! The device settings screen: what choosing an interval, the Smart Home
//! mode or the Bluetooth range, and renaming a device ask of the worker.
//!
//! While one change is under way (`updating_settings`) the controls are
//! disabled, and choosing the value a device already has does nothing.

use vstd::prelude::*;
use crate::helpers::interval_options;
use crate::session::{kept, untouched, AppState, Touched};
use crate::text::{push_str, trim_text, trimmed};
use crate::ui::UiAction;

verus! {

/// The interval options of the settings screen: seconds and label.
pub open spec fn interval_option(k: int) -> (u16, Seq<char>) {
    if k == 0 {
        (60, "1 min"@)
    } else if k == 1 {
        (120, "2 min"@)
    } else if k == 2 {
        (300, "5 min"@)
    } else {
        (600, "10 min"@)
    }
}

/// A change that the screen starts: the state notes that a change is under
/// way and shows `status`; nothing else changes.
pub open spec fn change_started(o: AppState, n: AppState, status: Seq<char>) -> bool {
    &&& n.updating_settings
    &&& n.status@ == status
    &&& kept(o, n, Touched { status: true, updating_settings: true, ..untouched() })
}

/// Marks a change as under way, with a status line.
fn start_change(app: &mut AppState, status: String)
    requires
        old(app).wf(),
    ensures
        final(app).wf(),
        change_started(*old(app), *final(app), status@),
{
    app.updating_settings = true;
    app.status = status;
}

/// Choosing interval option `option` (of `interval_options`) for the
/// device at `device_index`: shown only for a device with a reading, and
/// a change only when the device measures at another interval.
pub fn choose_interval(app: &mut AppState, device_index: usize, option: usize) -> (actions: Vec<UiAction>)
    requires
        old(app).wf(),
        device_index < old(app).devices@.len(),
        option < 4,
    ensures
        final(app).wf(),
        ({
            let d = old(app).devices@[device_index as int];
            let (secs, label) = interval_option(option as int);
            if !old(app).updating_settings && (d.reading matches Some(r) && r.interval != secs) {
                &&& change_started(*old(app), *final(app), "Setting interval to "@ + label + "..."@)
                &&& actions@.len() == 1
                &&& actions@[0] matches UiAction::SetInterval { device_id, interval_secs }
                    && device_id@ == d.id@ && interval_secs == secs
            } else {
                &&& *final(app) == *old(app)
                &&& actions@.len() == 0
            }
        }),
{
    let mut actions: Vec<UiAction> = Vec::new();
    if app.updating_settings {
        return actions;
    }
    let current = match &app.devices[device_index].reading {
        Some(r) => r.interval,
        None => return actions,
    };
    let options = interval_options();
    let (secs, label) = options[option];
    if current != secs {
        let mut status = String::from_str("Setting interval to ");
        push_str(&mut status, label);
        push_str(&mut status, "...");
        let device_id = app.devices[device_index].id.clone();
        start_change(app, status);
        actions.push(UiAction::SetInterval { device_id, interval_secs: secs });
    }
    actions
}

/// Choosing Smart Home on (`enabled`) or off for the device at
/// `device_index`, whose current mode is `current`.
pub fn choose_smart_home(app: &mut AppState, device_index: usize, enabled: bool, current: bool) -> (actions: Vec<UiAction>)
    requires
        old(app).wf(),
        device_index < old(app).devices@.len(),
    ensures
        final(app).wf(),
        if !old(app).updating_settings && enabled != current {
            &&& change_started(
                *old(app),
                *final(app),
                if enabled {
                    "Enabling Smart Home..."@
                } else {
                    "Disabling Smart Home..."@
                },
            )
            &&& actions@.len() == 1
            &&& actions@[0] matches UiAction::SetSmartHome { device_id, enabled: e } && device_id@
                == old(app).devices@[device_index as int].id@ && e == enabled
        } else {
            &&& *final(app) == *old(app)
            &&& actions@.len() == 0
        },
{
    let mut actions: Vec<UiAction> = Vec::new();
    if !app.updating_settings && enabled != current {
        let status = if enabled {
            String::from_str("Enabling Smart Home...")
        } else {
            String::from_str("Disabling Smart Home...")
        };
        let device_id = app.devices[device_index].id.clone();
        start_change(app, status);
        actions.push(UiAction::SetSmartHome { device_id, enabled });
    }
    actions
}

/// Choosing the extended (`extended`) or standard Bluetooth range for the
/// device at `device_index`, whose current range is `current_extended`.
pub fn choose_range(app: &mut AppState, device_index: usize, extended: bool, current_extended: bool) -> (actions: Vec<UiAction>)
    requires
        old(app).wf(),
        device_index < old(app).devices@.len(),
    ensures
        final(app).wf(),
        if !old(app).updating_settings && extended != current_extended {
            &&& change_started(
                *old(app),
                *final(app),
                "Setting range to "@ + (if extended {
                    "Extended"@
                } else {
                    "Standard"@
                }) + "..."@,
            )
            &&& actions@.len() == 1
            &&& actions@[0] matches UiAction::SetBluetoothRange { device_id, extended: e } && device_id@
                == old(app).devices@[device_index as int].id@ && e == extended
        } else {
            &&& *final(app) == *old(app)
            &&& actions@.len() == 0
        },
{
    let mut actions: Vec<UiAction> = Vec::new();
    if !app.updating_settings && extended != current_extended {
        let mut status = String::from_str("Setting range to ");
        push_str(&mut status, if extended {
            "Extended"
        } else {
            "Standard"
        });
        push_str(&mut status, "...");
        let device_id = app.devices[device_index].id.clone();
        start_change(app, status);
        actions.push(UiAction::SetBluetoothRange { device_id, extended });
    }
    actions
}

/// A rename in progress: the device and the text typed so far.
#[derive(Debug)]
pub struct AliasEdit {
    pub device_id: String,
    pub text: String,
}

/// Pressing "Rename" for the device at `device_index` (disabled while a
/// change is under way): editing starts from the device's name, or from an
/// empty text.
pub fn start_alias_edit(app: &AppState, device_index: usize, edit: &mut Option<AliasEdit>)
    requires
        device_index < app.devices@.len(),
    ensures
        app.updating_settings ==> *final(edit) == *old(edit),
        !app.updating_settings ==> (*final(edit) matches Some(e) && e.device_id@
            == app.devices@[device_index as int].id@ && e.text@ == match app.devices@[device_index as int].name {
            Some(n) => n@,
            None => Seq::<char>::empty(),
        }),
{
    if !app.updating_settings {
        let d = &app.devices[device_index];
        let text = match &d.name {
            Some(n) => n.clone(),
            None => String::new(),
        };
        *edit = Some(AliasEdit { device_id: d.id.clone(), text });
    }
}

/// Saving the rename of the device at `device_index`: the typed text
/// without surrounding whitespace becomes the alias (none when nothing is
/// left), the worker is asked to store it, and editing ends. Nothing
/// happens unless that device is the one being renamed.
pub fn save_alias_edit(app: &mut AppState, device_index: usize, edit: &mut Option<AliasEdit>) -> (actions: Vec<UiAction>)
    requires
        old(app).wf(),
        device_index < old(app).devices@.len(),
    ensures
        final(app).wf(),
        match *old(edit) {
            Some(e) if e.device_id@ == old(app).devices@[device_index as int].id@ => {
                &&& *final(edit) is None
                &&& final(app).updating_settings
                &&& kept(*old(app), *final(app), Touched { updating_settings: true, ..untouched() })
                &&& actions@.len() == 1
                &&& actions@[0] matches UiAction::SetAlias { device_id, alias } && device_id@ == e.device_id@
                    && match alias {
                    Some(a) => trimmed(e.text@).len() > 0 && a@ == trimmed(e.text@),
                    None => trimmed(e.text@).len() == 0,
                }
            },
            _ => {
                &&& *final(edit) == *old(edit)
                &&& *final(app) == *old(app)
                &&& actions@.len() == 0
            },
        },
{
    let mut actions: Vec<UiAction> = Vec::new();
    let editing_this = match edit {
        Some(e) => crate::text::str_eq(e.device_id.as_str(), app.devices[device_index].id.as_str()),
        None => false,
    };
    if editing_this {
        if let Some(e) = edit.take() {
            let t = trim_text(e.text.as_str());
            let alias = if t.unicode_len() == 0 {
                None
            } else {
                Some(t)
            };
            actions.push(UiAction::SetAlias { device_id: e.device_id, alias });
            app.updating_settings = true;
        }
    }
    actions
}

} // verus!
