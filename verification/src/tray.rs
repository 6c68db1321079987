//! System-tray state: the tooltip, the CO2 notification policy and the
//! styling of the tray icon for a CO2 level.

use vstd::prelude::*;
use crate::text::{dec, join, join_strings, push_dec, push_str};
use crate::types::{co2_level, co2_rank, Co2Level};

verus! {

/// Commands sent from the tray to the main window.
#[derive(Debug, Clone, Copy, PartialEq, Eq, Structural)]
pub enum TrayCommand {
    /// Show the main window.
    ShowWindow,
    /// Hide the main window (minimize to tray).
    HideWindow,
    /// Toggle window visibility.
    ToggleWindow,
    /// Scan for devices.
    Scan,
    /// Refresh all connected devices.
    RefreshAll,
    /// Open the settings view.
    OpenSettings,
    /// Quit the application.
    Quit,
}

/// State shared between the tray and the main window.
#[derive(Debug)]
pub struct TrayState {
    /// Current CO2 level, for the icon color.
    pub co2_level: Option<Co2Level>,
    /// Current CO2 reading in ppm.
    pub co2_ppm: Option<u16>,
    /// Whether the main window is visible.
    pub window_visible: bool,
    /// Device name for the tooltip.
    pub device_name: Option<String>,
    /// Level of the last notification, to avoid repeating it.
    pub last_alert_level: Option<Co2Level>,
    /// Whether to color the tray icon for elevated CO2.
    pub colored_tray_icon: bool,
    /// Whether notifications are enabled.
    pub notifications_enabled: bool,
    /// Whether notifications play a sound.
    pub notification_sound: bool,
    /// Do Not Disturb: suppresses notifications for this session.
    pub do_not_disturb: bool,
}

impl Default for TrayState {
    fn default() -> (r: Self)
        ensures
            r.co2_level is None,
            r.co2_ppm is None,
            !r.window_visible,
            r.device_name is None,
            r.last_alert_level is None,
            !r.colored_tray_icon,
            !r.notifications_enabled,
            !r.notification_sound,
            !r.do_not_disturb,
    {
        TrayState {
            co2_level: None,
            co2_ppm: None,
            window_visible: false,
            device_name: None,
            last_alert_level: None,
            colored_tray_icon: false,
            notifications_enabled: false,
            notification_sound: false,
            do_not_disturb: false,
        }
    }
}

/// The word for a CO2 level used in the tray.
pub open spec fn tray_level_word(l: Co2Level) -> Seq<char> {
    match l {
        Co2Level::Good => "Good"@,
        Co2Level::Moderate => "Moderate"@,
        Co2Level::Poor => "Poor"@,
        Co2Level::Bad => "Bad"@,
    }
}

/// The CO2 status line: `CO2: N ppm (Level)`.
pub open spec fn co2_status_text(ppm: nat) -> Seq<char> {
    "CO2: "@ + dec(ppm) + " ppm ("@ + tray_level_word(co2_level(ppm as int)) + ")"@
}

/// The lines of the tray tooltip.
pub open spec fn tooltip_lines(name: Option<Seq<char>>, co2: Option<u16>) -> Seq<Seq<char>> {
    let with_name = match name {
        Some(n) => seq!["Aranet"@, "Device: "@ + n],
        None => seq!["Aranet"@],
    };
    match co2 {
        Some(c) => with_name.push(co2_status_text(c as nat)),
        None => with_name,
    }
}

fn level_word(l: Co2Level) -> (r: &'static str)
    ensures
        r@ == tray_level_word(l),
{
    match l {
        Co2Level::Good => "Good",
        Co2Level::Moderate => "Moderate",
        Co2Level::Poor => "Poor",
        Co2Level::Bad => "Bad",
    }
}

/// The CO2 status line for the tray menu.
pub fn co2_status_line(co2: u16) -> (r: String)
    ensures
        r@ == co2_status_text(co2 as nat),
{
    let mut s = String::from_str("CO2: ");
    push_dec(&mut s, co2 as u64);
    push_str(&mut s, " ppm (");
    push_str(&mut s, level_word(Co2Level::from_ppm(co2)));
    push_str(&mut s, ")");
    s
}

/// The text of the tray's status menu item: the CO2 status line, or
/// `Aranet - No reading` without a reading.
pub fn status_item_text(co2: Option<u16>) -> (r: String)
    ensures
        r@ == (match co2 {
            Some(c) => co2_status_text(c as nat),
            None => "Aranet - No reading"@,
        }),
{
    match co2 {
        Some(c) => co2_status_line(c),
        None => String::from_str("Aranet - No reading"),
    }
}

impl TrayState {
    /// The tooltip text: `Aranet`, then the device name and the CO2 status
    /// when known, one per line.
    pub fn tooltip(&self) -> (r: String)
        ensures
            r@ == join(
                tooltip_lines(
                    match self.device_name {
                        Some(n) => Some(n@),
                        None => None,
                    },
                    self.co2_ppm,
                ),
                seq!['\n'],
            ),
    {
        let mut parts: Vec<String> = Vec::new();
        parts.push(String::from_str("Aranet"));
        match &self.device_name {
            Some(name) => {
                let mut p = String::from_str("Device: ");
                push_str(&mut p, name.as_str());
                parts.push(p);
            },
            None => {},
        }
        match self.co2_ppm {
            Some(co2) => {
                parts.push(co2_status_line(co2));
            },
            None => {},
        }
        assert(parts@.map_values(|l: String| l@) =~= tooltip_lines(
            match self.device_name {
                Some(n) => Some(n@),
                None => None,
            },
            self.co2_ppm,
        ));
        proof {
            reveal_strlit("\n");
            assert("\n"@ =~= seq!['\n']);
        }
        join_strings(&parts, "\n")
    }
}

/// Whether moving from the last alerted level to a new CO2 level deserves an
/// alert: reaching poor or bad from a better (or no) level, or recovering
/// from poor or bad to good.
pub open spec fn co2_transition_alerts(last: Option<Co2Level>, level: Co2Level) -> bool {
    match last {
        None => level == Co2Level::Poor || level == Co2Level::Bad,
        Some(l) => (co2_rank(level) >= 2 && co2_rank(l) < co2_rank(level)) || (level
            == Co2Level::Good && co2_rank(l) >= 2),
    }
}

/// Decides whether a CO2 level change deserves an alert.
pub fn should_alert_co2(last: Option<Co2Level>, level: Co2Level) -> (r: bool)
    ensures
        r == co2_transition_alerts(last, level),
{
    match (last, level) {
        (None, Co2Level::Poor) | (None, Co2Level::Bad) => true,
        (Some(Co2Level::Good), Co2Level::Poor) | (Some(Co2Level::Good), Co2Level::Bad) => true,
        (Some(Co2Level::Moderate), Co2Level::Poor) | (Some(Co2Level::Moderate), Co2Level::Bad) => true,
        (Some(Co2Level::Poor), Co2Level::Bad) => true,
        (Some(Co2Level::Bad), Co2Level::Good) | (Some(Co2Level::Poor), Co2Level::Good) => true,
        _ => false,
    }
}

/// A desktop notification to show.
#[derive(Debug, Clone)]
pub struct TrayNotification {
    /// Title.
    pub title: String,
    /// Body text.
    pub body: String,
    /// Whether the alert is critical.
    pub is_critical: bool,
    /// Whether to play a sound.
    pub play_sound: bool,
}

/// Title of a CO2 notification.
pub open spec fn co2_notification_title(l: Co2Level) -> Seq<char> {
    match l {
        Co2Level::Good => "CO2 Level Normal"@,
        Co2Level::Moderate => "CO2 Level Moderate"@,
        Co2Level::Poor => "CO2 Level Poor"@,
        Co2Level::Bad => "CO2 Level Critical"@,
    }
}

/// Body of a CO2 notification.
pub open spec fn co2_notification_body(device: Seq<char>, ppm: nat, l: Co2Level) -> Seq<char> {
    device + ": "@ + dec(ppm) + match l {
        Co2Level::Good => " ppm - Air quality is good"@,
        Co2Level::Moderate => " ppm - Consider ventilating"@,
        Co2Level::Poor => " ppm - Ventilation recommended"@,
        Co2Level::Bad => " ppm - Ventilate immediately!"@,
    }
}

/// What recording a CO2 reading does to the tray state `o` (giving `n`) and
/// which notification `r` it asks for: when notifications are enabled, Do
/// Not Disturb is off and the level change deserves an alert, a
/// notification is returned and the level is remembered as the last
/// alerted one; the current level and reading are always updated.
pub open spec fn threshold_checked(
    o: TrayState,
    n: TrayState,
    r: Option<TrayNotification>,
    co2_ppm: u16,
    device_name: Seq<char>,
) -> bool {
    let level = co2_level(co2_ppm as int);
    let notify = o.notifications_enabled && !o.do_not_disturb && co2_transition_alerts(
        o.last_alert_level,
        level,
    );
    &&& n.co2_level == Some(level)
    &&& n.co2_ppm == Some(co2_ppm)
    &&& n.last_alert_level == (if notify {
        Some(level)
    } else {
        o.last_alert_level
    })
    &&& n.window_visible == o.window_visible
    &&& n.device_name == o.device_name
    &&& n.colored_tray_icon == o.colored_tray_icon
    &&& n.notifications_enabled == o.notifications_enabled
    &&& n.notification_sound == o.notification_sound
    &&& n.do_not_disturb == o.do_not_disturb
    &&& (r is Some <==> notify)
    &&& r matches Some(m) ==> {
        &&& m.title@ == co2_notification_title(level)
        &&& m.body@ == co2_notification_body(device_name, co2_ppm as nat, level)
        &&& m.is_critical == (co2_rank(level) >= 2)
        &&& m.play_sound == o.notification_sound
    }
}

/// Records a CO2 reading in the tray state and decides on a notification.
///
/// When notifications are enabled, Do Not Disturb is off and the level
/// change deserves an alert, the notification to send is returned and the
/// level is remembered as the last alerted one. The current level and
/// reading are always updated.
pub fn check_co2_threshold(state: &mut TrayState, co2_ppm: u16, device_name: &str) -> (r: Option<
    TrayNotification,
>)
    ensures
        threshold_checked(*old(state), *final(state), r, co2_ppm, device_name@),
{
    let level = Co2Level::from_ppm(co2_ppm);
    let mut result: Option<TrayNotification> = None;
    if state.notifications_enabled && !state.do_not_disturb {
        if should_alert_co2(state.last_alert_level, level) {
            let title = match level {
                Co2Level::Good => String::from_str("CO2 Level Normal"),
                Co2Level::Moderate => String::from_str("CO2 Level Moderate"),
                Co2Level::Poor => String::from_str("CO2 Level Poor"),
                Co2Level::Bad => String::from_str("CO2 Level Critical"),
            };
            let mut body = String::from_str(device_name);
            push_str(&mut body, ": ");
            push_dec(&mut body, co2_ppm as u64);
            match level {
                Co2Level::Good => push_str(&mut body, " ppm - Air quality is good"),
                Co2Level::Moderate => push_str(&mut body, " ppm - Consider ventilating"),
                Co2Level::Poor => push_str(&mut body, " ppm - Ventilation recommended"),
                Co2Level::Bad => push_str(&mut body, " ppm - Ventilate immediately!"),
            }
            let is_critical = match level {
                Co2Level::Poor | Co2Level::Bad => true,
                _ => false,
            };
            result = Some(
                TrayNotification {
                    title,
                    body,
                    is_critical,
                    play_sound: state.notification_sound,
                },
            );
            state.last_alert_level = Some(level);
        }
    }
    state.co2_level = Some(level);
    state.co2_ppm = Some(co2_ppm);
    result
}

/// Notifications are only sent when they are enabled and Do Not Disturb
/// is off: otherwise a reading never notifies and leaves the last alerted
/// level as it was.
pub proof fn lemma_quiet_unless_enabled(
    o: TrayState,
    n: TrayState,
    r: Option<TrayNotification>,
    co2_ppm: u16,
    device_name: Seq<char>,
)
    requires
        threshold_checked(o, n, r, co2_ppm, device_name),
        !o.notifications_enabled || o.do_not_disturb,
    ensures
        r is None,
        n.last_alert_level == o.last_alert_level,
{
}

/// The same level never alerts twice in a row: once a level has been
/// alerted, a reading at that level does not alert again.
pub proof fn lemma_no_repeated_alert(l: Co2Level)
    ensures
        !co2_transition_alerts(Some(l), l),
{
}

/// An alert is raised exactly when the air gets worse into the poor or bad
/// range, or recovers from it to good; a change between good and moderate
/// never alerts.
pub proof fn lemma_alert_transitions(last: Co2Level, level: Co2Level)
    ensures
        co2_transition_alerts(Some(last), level) <==> ((co2_rank(level) >= 2 && co2_rank(last)
            < co2_rank(level)) || (level == Co2Level::Good && co2_rank(last) >= 2)),
        co2_rank(last) <= 1 && co2_rank(level) <= 1 ==> !co2_transition_alerts(Some(last), level),
{
}

} // verus!

verus! {

/// Whether the tray icon is drawn as a template (monochrome, following the
/// system appearance): always when colored icons are off, otherwise only
/// without a reading or at a good level.
pub open spec fn icon_is_template(level: Option<Co2Level>, use_colored: bool) -> bool {
    !use_colored || level is None || level == Some(Co2Level::Good)
}

/// The tint of the tray icon at an elevated level: amber, orange or red.
pub open spec fn icon_tint(level: Co2Level) -> (u8, u8, u8) {
    match level {
        Co2Level::Moderate => (255, 193, 7),
        Co2Level::Poor => (255, 152, 0),
        _ => (244, 67, 54),
    }
}

/// A byte of an RGBA image after styling the tray icon. Every complete pixel
/// keeps its alpha; as a template, each pixel that is not fully transparent
/// turns white; otherwise each pixel more than half opaque takes the tint.
/// Bytes after the last complete pixel are kept.
pub open spec fn styled_icon_byte(
    old: Seq<u8>,
    i: int,
    template: bool,
    tint: (u8, u8, u8),
) -> u8 {
    let p = i / 4;
    let k = i % 4;
    if 4 * p + 3 < old.len() && k < 3 {
        let alpha = old[4 * p + 3];
        if template {
            if alpha > 0 { 255 } else { old[i] }
        } else if alpha > 128 {
            if k == 0 { tint.0 } else if k == 1 { tint.1 } else { tint.2 }
        } else {
            old[i]
        }
    } else {
        old[i]
    }
}

/// Styles the tray icon's RGBA pixels for a CO2 level and returns whether
/// the icon is a template.
#[verifier::rlimit(30)]
pub fn style_tray_icon(rgba: &mut Vec<u8>, level: Option<Co2Level>, use_colored: bool) -> (r: bool)
    ensures
        r == icon_is_template(level, use_colored),
        final(rgba)@.len() == old(rgba)@.len(),
        forall|i: int|
            0 <= i < old(rgba)@.len() ==> #[trigger] final(rgba)@[i] == styled_icon_byte(
                old(rgba)@,
                i,
                r,
                match level {
                    Some(l) => icon_tint(l),
                    None => icon_tint(Co2Level::Bad),
                },
            ),
{
    let template = match level {
        None => true,
        Some(Co2Level::Good) => true,
        Some(_) => !use_colored,
    };
    let tint: (u8, u8, u8) = match level {
        Some(Co2Level::Moderate) => (255, 193, 7),
        Some(Co2Level::Poor) => (255, 152, 0),
        _ => (244, 67, 54),
    };
    let ghost orig = rgba@;
    let n = rgba.len();
    let pixels = n / 4;
    let mut p: usize = 0;
    while p < pixels
        invariant
            n == orig.len(),
            rgba@.len() == n,
            pixels == n / 4,
            p <= pixels,
            forall|i: int|
                0 <= i < 4 * p ==> #[trigger] rgba@[i] == styled_icon_byte(orig, i, template, tint),
            forall|i: int| 4 * p <= i < n ==> #[trigger] rgba@[i] == orig[i],
        decreases pixels - p,
    {
        let base = 4 * p;
        let alpha = rgba[base + 3];
        assert(alpha == orig[base + 3]);
        if template {
            if alpha > 0 {
                rgba.set(base, 255);
                rgba.set(base + 1, 255);
                rgba.set(base + 2, 255);
            }
        } else if alpha > 128 {
            rgba.set(base, tint.0);
            rgba.set(base + 1, tint.1);
            rgba.set(base + 2, tint.2);
        }
        assert forall|i: int| base <= i < base + 4 implies #[trigger] rgba@[i]
            == styled_icon_byte(orig, i, template, tint) by {
            assert(i / 4 == p);
        }
        p = p + 1;
    }
    assert forall|i: int| 4 * pixels <= i < n implies #[trigger] rgba@[i] == styled_icon_byte(
        orig,
        i,
        template,
        tint,
    ) by {
        assert(i / 4 == pixels);
    }
    template
}

} // verus!

verus! {

/// An item of the tray menu.
#[derive(Debug, Clone, Copy, PartialEq, Eq, Structural)]
pub enum TrayMenuItem {
    Scan,
    RefreshAll,
    Settings,
    Show,
    Hide,
    Quit,
}

/// A mouse event on the tray icon.
#[derive(Debug, Clone, Copy, PartialEq, Eq, Structural)]
pub enum TrayClick {
    /// A click; `left` for the left button, `released` when the button
    /// went up (a click is complete only then).
    Click { left: bool, released: bool },
    /// A double click, `left` for the left button.
    DoubleClick { left: bool },
    /// Any other event (the pointer entering, moving or leaving).
    Other,
}

/// The commands of a tray menu item: scanning and the settings first show
/// the window.
pub open spec fn menu_item_commands(item: TrayMenuItem) -> Seq<TrayCommand> {
    match item {
        TrayMenuItem::Scan => seq![TrayCommand::ShowWindow, TrayCommand::Scan],
        TrayMenuItem::RefreshAll => seq![TrayCommand::RefreshAll],
        TrayMenuItem::Settings => seq![TrayCommand::ShowWindow, TrayCommand::OpenSettings],
        TrayMenuItem::Show => seq![TrayCommand::ShowWindow],
        TrayMenuItem::Hide => seq![TrayCommand::HideWindow],
        TrayMenuItem::Quit => seq![TrayCommand::Quit],
    }
}

/// The commands of a tray icon event: a completed left click toggles the
/// window, a left double click shows it, anything else does nothing.
pub open spec fn click_commands(c: TrayClick) -> Seq<TrayCommand> {
    match c {
        TrayClick::Click { left, released } => if left && released {
            seq![TrayCommand::ToggleWindow]
        } else {
            Seq::empty()
        },
        TrayClick::DoubleClick { left } => if left {
            seq![TrayCommand::ShowWindow]
        } else {
            Seq::empty()
        },
        TrayClick::Other => Seq::empty(),
    }
}

/// The commands of a run of menu items, in order.
pub open spec fn menu_commands(items: Seq<TrayMenuItem>) -> Seq<TrayCommand>
    decreases items.len(),
{
    if items.len() == 0 {
        Seq::empty()
    } else {
        menu_commands(items.drop_last()) + menu_item_commands(items.last())
    }
}

/// The commands of a run of icon events, in order.
pub open spec fn clicks_commands(clicks: Seq<TrayClick>) -> Seq<TrayCommand>
    decreases clicks.len(),
{
    if clicks.len() == 0 {
        Seq::empty()
    } else {
        clicks_commands(clicks.drop_last()) + click_commands(clicks.last())
    }
}

/// Appends the commands of one menu item.
fn push_item_commands(out: &mut Vec<TrayCommand>, item: TrayMenuItem)
    ensures
        final(out)@ == old(out)@ + menu_item_commands(item),
{
    let ghost o = out@;
    match item {
        TrayMenuItem::Scan => {
            out.push(TrayCommand::ShowWindow);
            out.push(TrayCommand::Scan);
        },
        TrayMenuItem::RefreshAll => out.push(TrayCommand::RefreshAll),
        TrayMenuItem::Settings => {
            out.push(TrayCommand::ShowWindow);
            out.push(TrayCommand::OpenSettings);
        },
        TrayMenuItem::Show => out.push(TrayCommand::ShowWindow),
        TrayMenuItem::Hide => out.push(TrayCommand::HideWindow),
        TrayMenuItem::Quit => out.push(TrayCommand::Quit),
    }
    assert(out@ =~= o + menu_item_commands(item));
}

/// Appends the commands of one icon event.
fn push_click_commands(out: &mut Vec<TrayCommand>, c: TrayClick)
    ensures
        final(out)@ == old(out)@ + click_commands(c),
{
    let ghost o = out@;
    match c {
        TrayClick::Click { left, released } => {
            if left && released {
                out.push(TrayCommand::ToggleWindow);
            }
        },
        TrayClick::DoubleClick { left } => {
            if left {
                out.push(TrayCommand::ShowWindow);
            }
        },
        TrayClick::Other => {},
    }
    assert(out@ =~= o + click_commands(c));
}

/// The commands of the pending tray events: those of the menu items, in
/// order, then those of the icon events, in order.
pub fn tray_commands(items: &Vec<TrayMenuItem>, clicks: &Vec<TrayClick>) -> (r: Vec<TrayCommand>)
    ensures
        r@ == menu_commands(items@) + clicks_commands(clicks@),
{
    let mut out: Vec<TrayCommand> = Vec::new();
    let mut i: usize = 0;
    assert(items@.take(0) =~= Seq::<TrayMenuItem>::empty());
    while i < items.len()
        invariant
            i <= items@.len(),
            out@ == menu_commands(items@.take(i as int)),
        decreases items@.len() - i,
    {
        proof {
            assert(items@.take(i + 1).drop_last() =~= items@.take(i as int));
        }
        push_item_commands(&mut out, items[i]);
        i = i + 1;
    }
    assert(items@.take(items@.len() as int) =~= items@);
    let ghost m = out@;
    let mut j: usize = 0;
    assert(clicks@.take(0) =~= Seq::<TrayClick>::empty());
    assert(m + clicks_commands(clicks@.take(0)) =~= m);
    while j < clicks.len()
        invariant
            j <= clicks@.len(),
            out@ == m + clicks_commands(clicks@.take(j as int)),
        decreases clicks@.len() - j,
    {
        proof {
            assert(clicks@.take(j + 1).drop_last() =~= clicks@.take(j as int));
        }
        push_click_commands(&mut out, clicks[j]);
        proof {
            assert(out@ =~= m + clicks_commands(clicks@.take(j + 1)));
        }
        j = j + 1;
    }
    assert(clicks@.take(clicks@.len() as int) =~= clicks@);
    out
}

} // verus!
