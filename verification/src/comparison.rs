//! Side-by-side comparison of devices: picking them from the device list
//! and switching the comparison on and off.

use vstd::prelude::*;
use crate::device_list::{connected_count, connected_total};
use crate::session::{indices_below, kept, untouched, AppState, Touched};
use crate::text::{dec, push_dec};
use crate::theme::{Rgb, Theme};
use crate::ui::UiState;

verus! {

/// Whether `p` is the first position of `x` in `s`.
pub open spec fn first_at(s: Seq<usize>, x: usize, p: int) -> bool {
    &&& 0 <= p < s.len()
    &&& s[p] == x
    &&& forall|j: int| 0 <= j < p ==> s[j] != x
}

/// The comparison after clicking device `i`: it leaves the comparison when
/// it was in it (its first entry is removed), and joins it at the end
/// otherwise.
pub open spec fn toggled_in(s: Seq<usize>, i: usize, n: Seq<usize>) -> bool {
    if s.contains(i) {
        exists|p: int| first_at(s, i, p) && n == s.remove(p)
    } else {
        n == s.push(i)
    }
}

/// Clicking device `i` in the list: in comparison mode it joins or leaves
/// the comparison, otherwise it becomes the selected device.
#[verifier::rlimit(30)]
pub fn click_device(app: &mut AppState, ui: &UiState, i: usize)
    requires
        old(app).wf(),
        i < old(app).devices@.len(),
    ensures
        final(app).wf(),
        kept(*old(app), *final(app), Touched { selection: true, ..untouched() }),
        ui.comparison_mode ==> final(app).selected_device == old(app).selected_device && toggled_in(
            old(app).comparison_devices@,
            i,
            final(app).comparison_devices@,
        ),
        !ui.comparison_mode ==> final(app).selected_device == Some(i)
            && final(app).comparison_devices@ == old(app).comparison_devices@,
{
    if !ui.comparison_mode {
        app.selected_device = Some(i);
        return;
    }
    let ghost s = app.comparison_devices@;
    let n = app.comparison_devices.len();
    let mut p: usize = 0;
    while p < n
        invariant
            n == s.len(),
            s == app.comparison_devices@,
            p <= n,
            forall|j: int| 0 <= j < p ==> s[j] != i,
        ensures
            p <= n,
            p < n ==> s[p as int] == i,
            forall|j: int| 0 <= j < p ==> s[j] != i,
        decreases n - p,
    {
        if app.comparison_devices[p] == i {
            break;
        }
        p = p + 1;
    }
    if p < n {
        assert(first_at(s, i, p as int));
        assert(s.contains(i));
        app.comparison_devices.remove(p);
        assert(indices_below(app.comparison_devices@, app.devices@.len())) by {
            assert forall|k: int| 0 <= k < app.comparison_devices@.len() implies #[trigger] app.comparison_devices@[k]
                < app.devices@.len() by {
                if k < p {
                    assert(app.comparison_devices@[k] == s[k]);
                } else {
                    assert(app.comparison_devices@[k] == s[k + 1]);
                }
            }
        }
    } else {
        assert(!s.contains(i)) by {
            if s.contains(i) {
                let k = choose|k: int| 0 <= k < s.len() && s[k] == i;
                assert(s[k] != i);
            }
        }
        app.comparison_devices.push(i);
    }
}

/// Pressing the comparison button, which is offered only with two or more
/// connected devices: it switches comparison mode, and leaving it empties
/// the comparison.
pub fn toggle_comparison_mode(app: &mut AppState, ui: &mut UiState)
    requires
        old(app).wf(),
    ensures
        final(app).wf(),
        kept(*old(app), *final(app), Touched { selection: true, ..untouched() }),
        final(app).selected_device == old(app).selected_device,
        connected_total(old(app).devices@) >= 2 ==> {
            &&& *final(ui) == (UiState { comparison_mode: !old(ui).comparison_mode, ..*old(ui) })
            &&& final(app).comparison_devices@ == (if old(ui).comparison_mode {
                Seq::<usize>::empty()
            } else {
                old(app).comparison_devices@
            })
        },
        connected_total(old(app).devices@) < 2 ==> *final(ui) == *old(ui) && *final(app) == *old(app),
{
    if connected_count(&app.devices) >= 2 {
        ui.comparison_mode = !ui.comparison_mode;
        if !ui.comparison_mode {
            app.comparison_devices.clear();
        }
    }
}

/// Leaving the comparison from its panel: comparison mode ends and the
/// comparison is emptied.
pub fn exit_comparison(app: &mut AppState, ui: &mut UiState)
    requires
        old(app).wf(),
    ensures
        final(app).wf(),
        kept(*old(app), *final(app), Touched { selection: true, ..untouched() }),
        final(app).selected_device == old(app).selected_device,
        final(app).comparison_devices@.len() == 0,
        *final(ui) == (UiState { comparison_mode: false, ..*old(ui) }),
{
    ui.comparison_mode = false;
    app.comparison_devices.clear();
}

/// The label of the comparison button: `Compare`, with the number of
/// picked devices in comparison mode; no button with fewer than two
/// connected devices.
pub fn compare_button_label(app: &AppState, ui: &UiState) -> (r: Option<String>)
    ensures
        connected_total(app.devices@) < 2 ==> r is None,
        connected_total(app.devices@) >= 2 ==> (r matches Some(s) && s@ == if ui.comparison_mode {
            "Compare ("@ + dec(app.comparison_devices@.len()) + ")"@
        } else {
            "Compare"@
        }),
{
    if connected_count(&app.devices) < 2 {
        return None;
    }
    if ui.comparison_mode {
        let mut s = String::from_str("Compare (");
        push_dec(&mut s, app.comparison_devices.len() as u64);
        crate::text::push_str(&mut s, ")");
        Some(s)
    } else {
        Some(String::from_str("Compare"))
    }
}

/// The header of the comparison panel, or `None` when fewer than two
/// devices are picked (the panel then asks to pick more).
pub fn comparison_header(app: &AppState) -> (r: Option<String>)
    requires
        app.wf(),
    ensures
        app.comparison_devices@.len() < 2 ==> r is None,
        app.comparison_devices@.len() >= 2 ==> (r matches Some(s) && s@ == "Comparing "@ + dec(
            app.comparison_devices@.len(),
        ) + " devices"@),
{
    let n = app.comparison_devices.len();
    if n < 2 {
        None
    } else {
        let mut s = String::from_str("Comparing ");
        push_dec(&mut s, n as u64);
        crate::text::push_str(&mut s, " devices");
        Some(s)
    }
}

/// The battery color in the comparison: danger below 20%, warning below
/// 40%, success otherwise.
pub fn comparison_battery_color(theme: &Theme, battery: u8) -> (r: Rgb)
    ensures
        r == (if battery < 20 {
            theme.danger
        } else if battery < 40 {
            theme.warning
        } else {
            theme.success
        }),
{
    if battery < 20 {
        theme.danger
    } else if battery < 40 {
        theme.warning
    } else {
        theme.success
    }
}

/// Clicking a device that is not in the comparison twice leaves the
/// comparison as it was.
pub proof fn lemma_click_twice(s: Seq<usize>, i: usize, once: Seq<usize>, twice: Seq<usize>)
    requires
        !s.contains(i),
        toggled_in(s, i, once),
        toggled_in(once, i, twice),
    ensures
        twice == s,
{
    assert(once == s.push(i));
    assert(once[s.len() as int] == i);
    assert(once.contains(i));
    let p = choose|p: int| first_at(once, i, p) && twice == once.remove(p);
    if p < s.len() {
        assert(once[p] == s[p]);
        assert(s.contains(i));
    }
    assert(p == s.len());
    assert(once.remove(p) =~= s);
}

} // verus!
