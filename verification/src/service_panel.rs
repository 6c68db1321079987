//! The service screen: the background service's status, the collector,
//! the system service and the devices the service monitors.
//!
//! Buttons are disabled while their request is under way (`refreshing`,
//! `pending`, `loading` in the state).

use vstd::prelude::*;
use crate::service::SystemAction;
use crate::session::{kept, untouched, AppState, Touched};
use crate::theme::{Rgb, Theme};
use crate::ui::UiAction;

verus! {

/// A request about the background service.
#[derive(Debug)]
pub enum ServiceRequest {
    /// Fetch the service status.
    RefreshStatus,
    /// Start the collector.
    StartCollector,
    /// Stop the collector.
    StopCollector,
    /// Ask whether the system service is installed and running.
    CheckSystemService { user_level: bool },
    /// Run a system-service command.
    SystemService { action: SystemAction, user_level: bool },
    /// Fetch the monitored devices.
    FetchConfig,
    /// Stop monitoring a device.
    RemoveDevice { address: String },
    /// Start monitoring a device.
    AddDevice { address: String, alias: Option<String>, poll_interval: u64 },
}

/// The reachability badge: text and color.
pub fn reachability_badge(theme: &Theme, reachable: bool) -> (r: (&'static str, Rgb))
    ensures
        reachable ==> r.0@ == "Reachable"@ && r.1 == theme.success,
        !reachable ==> r.0@ == "Not Reachable"@ && r.1 == theme.danger,
{
    if reachable {
        ("Reachable", theme.success)
    } else {
        ("Not Reachable", theme.danger)
    }
}

/// The collector badge: text and color.
pub fn collector_badge(theme: &Theme, running: bool) -> (r: (&'static str, Rgb))
    ensures
        running ==> r.0@ == "Running"@ && r.1 == theme.success,
        !running ==> r.0@ == "Stopped"@ && r.1 == theme.text_muted,
{
    if running {
        ("Running", theme.success)
    } else {
        ("Stopped", theme.text_muted)
    }
}

/// The collector button: its label and color, and what it asks for.
pub fn collector_button(theme: &Theme, running: bool) -> (r: (&'static str, Rgb, ServiceRequest))
    ensures
        running ==> r.0@ == "Stop Collector"@ && r.1 == theme.danger && r.2 is StopCollector,
        !running ==> r.0@ == "Start Collector"@ && r.1 == theme.success && r.2 is StartCollector,
{
    if running {
        ("Stop Collector", theme.danger, ServiceRequest::StopCollector)
    } else {
        ("Start Collector", theme.success, ServiceRequest::StartCollector)
    }
}

/// Pressing "Refresh" for the service status: disabled while a refresh is
/// under way; otherwise the status is fetched and marked as refreshing.
pub fn refresh_service(app: &mut AppState) -> (actions: Vec<UiAction>)
    requires
        old(app).wf(),
    ensures
        final(app).wf(),
        old(app).service_refreshing ==> *final(app) == *old(app) && actions@.len() == 0,
        !old(app).service_refreshing ==> {
            &&& final(app).service_refreshing
            &&& final(app).service_status == old(app).service_status
            &&& kept(*old(app), *final(app), Touched { service_status: true, ..untouched() })
            &&& actions@.len() == 1
            &&& actions@[0] matches UiAction::Service(ServiceRequest::RefreshStatus)
        },
{
    let mut actions: Vec<UiAction> = Vec::new();
    if !app.service_refreshing {
        app.service_refreshing = true;
        actions.push(UiAction::Service(ServiceRequest::RefreshStatus));
    }
    actions
}

/// The system-service buttons offered for its state: refresh always; stop
/// when running, start when installed and stopped; uninstall when
/// installed, install otherwise.
pub open spec fn offered_actions(installed: bool, running: bool) -> Seq<SystemAction> {
    if installed {
        if running {
            seq![SystemAction::Stop, SystemAction::Uninstall]
        } else {
            seq![SystemAction::Start, SystemAction::Uninstall]
        }
    } else {
        seq![SystemAction::Install]
    }
}

/// The system-service commands offered, in order.
pub fn system_service_buttons(installed: bool, running: bool) -> (r: Vec<SystemAction>)
    ensures
        r@ == offered_actions(installed, running),
{
    let mut v: Vec<SystemAction> = Vec::new();
    if installed {
        if running {
            v.push(SystemAction::Stop);
        } else {
            v.push(SystemAction::Start);
        }
        v.push(SystemAction::Uninstall);
    } else {
        v.push(SystemAction::Install);
    }
    proof {
        assert(v@ =~= offered_actions(installed, running));
    }
    v
}

/// The label of a system-service button.
pub fn system_button_label(a: SystemAction) -> (r: &'static str)
    ensures
        r@ == match a {
            SystemAction::Install => "Install"@,
            SystemAction::Uninstall => "Uninstall"@,
            SystemAction::Start => "Start"@,
            SystemAction::Stop => "Stop"@,
        },
{
    match a {
        SystemAction::Install => "Install",
        SystemAction::Uninstall => "Uninstall",
        SystemAction::Start => "Start",
        SystemAction::Stop => "Stop",
    }
}

/// Pressing a system-service button (`None` is "Refresh", which checks the
/// status): disabled while a command is pending; otherwise the command is
/// sent for the user's service and marked pending.
pub fn press_system_button(app: &mut AppState, action: Option<SystemAction>) -> (actions: Vec<UiAction>)
    requires
        old(app).wf(),
    ensures
        final(app).wf(),
        old(app).system_service_pending ==> *final(app) == *old(app) && actions@.len() == 0,
        !old(app).system_service_pending ==> {
            &&& final(app).system_service_pending
            &&& final(app).system_service_status == old(app).system_service_status
            &&& kept(*old(app), *final(app), Touched { system_service: true, ..untouched() })
            &&& actions@.len() == 1
            &&& match action {
                None => actions@[0] matches UiAction::Service(
                    ServiceRequest::CheckSystemService { user_level },
                ) && user_level,
                Some(a) => actions@[0] matches UiAction::Service(
                    ServiceRequest::SystemService { action: b, user_level },
                ) && b == a && user_level,
            }
        },
{
    let mut actions: Vec<UiAction> = Vec::new();
    if !app.system_service_pending {
        app.system_service_pending = true;
        let request = match action {
            None => ServiceRequest::CheckSystemService { user_level: true },
            Some(a) => ServiceRequest::SystemService { action: a, user_level: true },
        };
        actions.push(UiAction::Service(request));
    }
    actions
}

/// Pressing "Load" for the monitored devices, offered while none are known
/// and none are loading: the configuration is fetched and marked loading.
pub fn load_monitored(app: &mut AppState) -> (actions: Vec<UiAction>)
    requires
        old(app).wf(),
    ensures
        final(app).wf(),
        !(old(app).service_monitored_devices@.len() == 0 && !old(app).service_config_loading) ==> *final(app)
            == *old(app) && actions@.len() == 0,
        old(app).service_monitored_devices@.len() == 0 && !old(app).service_config_loading ==> {
            &&& final(app).service_config_loading
            &&& final(app).service_monitored_devices@ == old(app).service_monitored_devices@
            &&& final(app).add_device_dialog == old(app).add_device_dialog
            &&& kept(*old(app), *final(app), Touched { monitored: true, ..untouched() })
            &&& actions@.len() == 1
            &&& actions@[0] matches UiAction::Service(ServiceRequest::FetchConfig)
        },
{
    let mut actions: Vec<UiAction> = Vec::new();
    if app.service_monitored_devices.len() == 0 && !app.service_config_loading {
        app.service_config_loading = true;
        actions.push(UiAction::Service(ServiceRequest::FetchConfig));
    }
    actions
}

/// Removing a monitored device from the list asks the service to stop
/// monitoring it.
pub fn remove_monitored_request(address: &str) -> (r: UiAction)
    ensures
        r matches UiAction::Service(ServiceRequest::RemoveDevice { address: a }) && a@ == address@,
{
    UiAction::Service(ServiceRequest::RemoveDevice { address: String::from_str(address) })
}

/// Opening the add-device form: empty address and alias, a 60-second
/// interval.
pub fn open_add_device(app: &mut AppState)
    requires
        old(app).wf(),
    ensures
        final(app).wf(),
        final(app).add_device_dialog matches Some((a, al, i)) && a@.len() == 0 && al@.len() == 0 && i
            == 60,
        final(app).service_monitored_devices@ == old(app).service_monitored_devices@,
        final(app).service_config_loading == old(app).service_config_loading,
        kept(*old(app), *final(app), Touched { monitored: true, ..untouched() }),
{
    app.add_device_dialog = Some((String::new(), String::new(), 60));
}

/// Pressing "Add" (enabled once an address is typed): the device is
/// submitted, with no alias when that field is empty, and the form closes.
/// "Cancel" (`add` false) only closes the form.
pub fn close_add_device(app: &mut AppState, add: bool) -> (actions: Vec<UiAction>)
    requires
        old(app).wf(),
    ensures
        final(app).wf(),
        final(app).service_monitored_devices@ == old(app).service_monitored_devices@,
        final(app).service_config_loading == old(app).service_config_loading,
        kept(*old(app), *final(app), Touched { monitored: true, ..untouched() }),
        match old(app).add_device_dialog {
            None => *final(app) == *old(app) && actions@.len() == 0,
            Some((addr, alias, interval)) => if add && addr@.len() == 0 {
                *final(app) == *old(app) && actions@.len() == 0
            } else {
                &&& final(app).add_device_dialog is None
                &&& if add {
                    &&& actions@.len() == 1
                    &&& actions@[0] matches UiAction::Service(
                        ServiceRequest::AddDevice { address, alias: al, poll_interval },
                    ) && address@ == addr@ && poll_interval == interval && match al {
                        Some(x) => alias@.len() > 0 && x@ == alias@,
                        None => alias@.len() == 0,
                    }
                } else {
                    actions@.len() == 0
                }
            },
        },
{
    let mut actions: Vec<UiAction> = Vec::new();
    let ready = match &app.add_device_dialog {
        None => false,
        Some((addr, _, _)) => !add || addr.as_str().unicode_len() > 0,
    };
    if !ready {
        return actions;
    }
    let dialog = app.add_device_dialog.take();
    if add {
        if let Some((addr, alias, interval)) = dialog {
            let al = if alias.as_str().unicode_len() == 0 {
                None
            } else {
                Some(alias)
            };
            actions.push(
                UiAction::Service(
                    ServiceRequest::AddDevice { address: addr, alias: al, poll_interval: interval },
                ),
            );
        }
    }
    actions
}

/// A monitored device's last error, as the list shows it.
pub fn last_error_text(error: &str) -> (r: String)
    ensures
        r@ == "Last error: "@ + error@,
{
    let mut s = String::from_str("Last error: ");
    crate::text::push_str(&mut s, error);
    s
}

} // verus!
