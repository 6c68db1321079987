//! The device list of the sidebar: which devices the filters show and in
//! what order (connected devices first, then by name).

use vstd::prelude::*;
use crate::device::DeviceState;
use crate::session::shown_name;
use crate::text::to_chars;
use crate::types::{ConnectionFilter, ConnectionState, DeviceType, DeviceTypeFilter};

verus! {

/// Whether a device is connected.
pub open spec fn connected(d: DeviceState) -> bool {
    d.connection is Connected
}

/// Whether a device kind passes the kind filter.
pub open spec fn kind_passes(f: DeviceTypeFilter, t: Option<DeviceType>) -> bool {
    match f {
        DeviceTypeFilter::All => true,
        DeviceTypeFilter::Aranet4 => t == Some(DeviceType::Aranet4),
        DeviceTypeFilter::AranetRadon => t == Some(DeviceType::AranetRadon),
        DeviceTypeFilter::AranetRadiation => t == Some(DeviceType::AranetRadiation),
        DeviceTypeFilter::Aranet2 => t == Some(DeviceType::Aranet2),
    }
}

/// Whether the list shows a device under the kind and connection filters.
pub open spec fn passes_filters(d: DeviceState, kind: DeviceTypeFilter, conn: ConnectionFilter) -> bool {
    &&& kind_passes(kind, d.device_type)
    &&& match conn {
        ConnectionFilter::All => true,
        ConnectionFilter::Connected => connected(d),
        ConnectionFilter::Disconnected => !connected(d),
    }
}

/// The list shows a device exactly when it is of the chosen kind (any kind
/// under "all") and its connection fits the connection filter: only
/// connected devices under "connected", only devices that are not connected
/// under "disconnected", and every device under "all".
pub proof fn lemma_filters_choose_devices(d: DeviceState, kind: DeviceTypeFilter, conn: ConnectionFilter)
    ensures
        passes_filters(d, kind, conn) <==> {
            &&& (kind is All || (kind is Aranet4 && d.device_type == Some(DeviceType::Aranet4)) || (
            kind is AranetRadon && d.device_type == Some(DeviceType::AranetRadon)) || (
            kind is AranetRadiation && d.device_type == Some(DeviceType::AranetRadiation)) || (
            kind is Aranet2 && d.device_type == Some(DeviceType::Aranet2)))
            &&& (conn is Connected ==> d.connection is Connected)
            &&& (conn is Disconnected ==> !(d.connection is Connected))
        },
{
}

/// Strict lexicographic order of texts by character.
pub open spec fn text_less(a: Seq<char>, b: Seq<char>) -> bool
    decreases a.len(),
{
    if a.len() == 0 {
        b.len() > 0
    } else if b.len() == 0 {
        false
    } else if a[0] != b[0] {
        a[0] < b[0]
    } else {
        text_less(a.drop_first(), b.drop_first())
    }
}

/// Whether device `i` comes before device `j` in the list: connected
/// devices first, then by shown name, then in the order they were found.
pub open spec fn listed_before(devices: Seq<DeviceState>, i: int, j: int) -> bool {
    let a = devices[i];
    let b = devices[j];
    ||| connected(a) && !connected(b)
    ||| connected(a) == connected(b) && text_less(shown_name(a), shown_name(b))
    ||| connected(a) == connected(b) && shown_name(a) == shown_name(b) && i < j
}

/// No text sorts before itself.
pub proof fn lemma_text_less_irreflexive(a: Seq<char>)
    ensures
        !text_less(a, a),
    decreases a.len(),
{
    if a.len() > 0 {
        lemma_text_less_irreflexive(a.drop_first());
    }
}

/// The text order is transitive.
pub proof fn lemma_text_less_transitive(a: Seq<char>, b: Seq<char>, c: Seq<char>)
    requires
        text_less(a, b),
        text_less(b, c),
    ensures
        text_less(a, c),
    decreases a.len(),
{
    if a.len() > 0 && b.len() > 0 && c.len() > 0 && a[0] == b[0] && b[0] == c[0] {
        lemma_text_less_transitive(a.drop_first(), b.drop_first(), c.drop_first());
    }
}

/// Of two different texts, one sorts before the other.
pub proof fn lemma_text_less_total(a: Seq<char>, b: Seq<char>)
    requires
        a != b,
    ensures
        text_less(a, b) || text_less(b, a),
    decreases a.len(),
{
    if a.len() == 0 && b.len() == 0 {
        assert(a =~= b);
    } else if a.len() > 0 && b.len() > 0 && a[0] == b[0] {
        assert(a.drop_first() != b.drop_first()) by {
            if a.drop_first() == b.drop_first() {
                assert(a =~= seq![a[0]] + a.drop_first());
                assert(b =~= seq![b[0]] + b.drop_first());
            }
        }
        lemma_text_less_total(a.drop_first(), b.drop_first());
    }
}

/// `text_less` is irreflexive and transitive, and compares any two
/// different texts one way or the other.
pub proof fn lemma_text_less_order(a: Seq<char>, b: Seq<char>, c: Seq<char>)
    ensures
        !text_less(a, a),
        text_less(a, b) && text_less(b, c) ==> text_less(a, c),
        a != b ==> text_less(a, b) || text_less(b, a),
        !(text_less(a, b) && text_less(b, a)),
{
    lemma_text_less_irreflexive(a);
    if text_less(a, b) && text_less(b, c) {
        lemma_text_less_transitive(a, b, c);
    }
    if a != b {
        lemma_text_less_total(a, b);
    }
    if text_less(a, b) && text_less(b, a) {
        lemma_text_less_transitive(a, b, a);
    }
}

/// The list order is a strict total order on the devices.
pub proof fn lemma_listed_before_order(devices: Seq<DeviceState>, i: int, j: int, k: int)
    ensures
        !listed_before(devices, i, i),
        listed_before(devices, i, j) && listed_before(devices, j, k) ==> listed_before(devices, i, k),
        i != j ==> listed_before(devices, i, j) || listed_before(devices, j, i),
        !(listed_before(devices, i, j) && listed_before(devices, j, i)),
{
    let a = shown_name(devices[i]);
    let b = shown_name(devices[j]);
    let c = shown_name(devices[k]);
    lemma_text_less_order(a, b, c);
    lemma_text_less_order(b, a, c);
    lemma_text_less_order(a, a, a);
    lemma_text_less_order(b, b, b);
}

/// Whether text `a` sorts before text `b`.
fn text_before(a: &str, b: &str) -> (r: bool)
    ensures
        r == text_less(a@, b@),
{
    let ca = to_chars(a);
    let cb = to_chars(b);
    let mut i: usize = 0;
    assert(a@.skip(0) =~= a@);
    assert(b@.skip(0) =~= b@);
    while i < ca.len() && i < cb.len() && ca[i] == cb[i]
        invariant
            ca@ == a@,
            cb@ == b@,
            i <= ca@.len(),
            i <= cb@.len(),
            text_less(a@, b@) == text_less(a@.skip(i as int), b@.skip(i as int)),
        decreases ca@.len() - i,
    {
        assert(a@.skip(i as int).drop_first() =~= a@.skip(i + 1));
        assert(b@.skip(i as int).drop_first() =~= b@.skip(i + 1));
        i = i + 1;
    }
    if i == ca.len() {
        i < cb.len()
    } else if i == cb.len() {
        false
    } else {
        ca[i] < cb[i]
    }
}

/// Whether device `i` is listed before device `j`.
fn before(devices: &Vec<DeviceState>, i: usize, j: usize) -> (r: bool)
    requires
        i < devices@.len(),
        j < devices@.len(),
    ensures
        r == listed_before(devices@, i as int, j as int),
{
    let ca = is_connected(&devices[i]);
    let cb = is_connected(&devices[j]);
    if ca != cb {
        return ca;
    }
    let na = devices[i].display_name();
    let nb = devices[j].display_name();
    if text_before(na, nb) {
        true
    } else if text_before(nb, na) {
        false
    } else {
        proof {
            lemma_text_less_order(na@, nb@, na@);
        }
        i < j
    }
}

/// Whether a device is connected.
fn is_connected(d: &DeviceState) -> (r: bool)
    ensures
        r == connected(*d),
{
    match d.connection {
        ConnectionState::Connected => true,
        _ => false,
    }
}

/// Whether a device passes the filters.
fn shown_by_filters(d: &DeviceState, kind: DeviceTypeFilter, conn: ConnectionFilter) -> (r: bool)
    ensures
        r == passes_filters(*d, kind, conn),
{
    if !kind.matches(d.device_type) {
        return false;
    }
    match conn {
        ConnectionFilter::All => true,
        ConnectionFilter::Connected => is_connected(d),
        ConnectionFilter::Disconnected => !is_connected(d),
    }
}

/// The indices of the devices the list shows, in list order: exactly the
/// devices that pass the filters, connected ones first, then by shown
/// name, ties in the order the devices were found.
#[verifier::rlimit(30)]
pub fn device_list_order(
    devices: &Vec<DeviceState>,
    kind: DeviceTypeFilter,
    conn: ConnectionFilter,
) -> (r: Vec<usize>)
    ensures
        forall|j: usize|
            #![trigger r@.contains(j)]
            r@.contains(j) <==> (j < devices@.len() && passes_filters(devices@[j as int], kind, conn)),
        forall|a: int, b: int|
            0 <= a < b < r@.len() ==> listed_before(devices@, #[trigger] r@[a] as int, #[trigger] r@[b] as int),
{
    let n = devices.len();
    let mut out: Vec<usize> = Vec::new();
    let mut i: usize = 0;
    while i < n
        invariant
            n == devices@.len(),
            i <= n,
            forall|j: usize|
                #![trigger out@.contains(j)]
                out@.contains(j) <==> (j < i && passes_filters(devices@[j as int], kind, conn)),
            forall|a: int, b: int|
                0 <= a < b < out@.len() ==> listed_before(
                    devices@,
                    #[trigger] out@[a] as int,
                    #[trigger] out@[b] as int,
                ),
            forall|a: int| 0 <= a < out@.len() ==> #[trigger] out@[a] < i,
        decreases n - i,
    {
        if shown_by_filters(&devices[i], kind, conn) {
            let m = out.len();
            let mut k: usize = 0;
            while k < m && !before(devices, i, out[k])
                invariant
                    m == out@.len(),
                    k <= m,
                    i < n,
                    n == devices@.len(),
                    forall|a: int| 0 <= a < out@.len() ==> #[trigger] out@[a] < i,
                    forall|a: int| 0 <= a < k ==> !listed_before(devices@, i as int, #[trigger] out@[a] as int),
                decreases m - k,
            {
                k = k + 1;
            }
            let ghost old_out = out@;
            proof {
                assert forall|a: int| 0 <= a < k implies listed_before(devices@, #[trigger] old_out[a] as int, i as int) by {
                    lemma_listed_before_order(devices@, old_out[a] as int, i as int, i as int);
                }
                if k < m {
                    assert forall|a: int| k <= a < m implies listed_before(devices@, i as int, #[trigger] old_out[a] as int) by {
                        if a > k {
                            lemma_listed_before_order(devices@, i as int, old_out[k as int] as int, old_out[a] as int);
                        }
                    }
                }
            }
            out.insert(k, i);
            proof {
                assert forall|a: int, b: int|
                    0 <= a < b < out@.len() implies listed_before(
                    devices@,
                    #[trigger] out@[a] as int,
                    #[trigger] out@[b] as int,
                ) by {
                    if b < k {
                        assert(out@[a] == old_out[a] && out@[b] == old_out[b]);
                    } else if b == k {
                        assert(out@[a] == old_out[a]);
                    } else if a < k {
                        assert(out@[a] == old_out[a] && out@[b] == old_out[b - 1]);
                        lemma_listed_before_order(devices@, old_out[a] as int, i as int, old_out[b - 1] as int);
                    } else if a == k {
                        assert(out@[b] == old_out[b - 1]);
                    } else {
                        assert(out@[a] == old_out[a - 1] && out@[b] == old_out[b - 1]);
                    }
                }
                assert forall|j: usize|
                    #![trigger out@.contains(j)]
                    out@.contains(j) <==> (j < i + 1 && passes_filters(devices@[j as int], kind, conn)) by {
                    if out@.contains(j) {
                        let p = choose|p: int| 0 <= p < out@.len() && out@[p] == j;
                        if p < k {
                            assert(old_out[p] == j);
                            assert(old_out.contains(j));
                        } else if p > k {
                            assert(old_out[p - 1] == j);
                            assert(old_out.contains(j));
                        }
                    }
                    if j < i + 1 && passes_filters(devices@[j as int], kind, conn) {
                        if j == i {
                            assert(out@[k as int] == i);
                        } else {
                            assert(old_out.contains(j));
                            let p = choose|p: int| 0 <= p < old_out.len() && old_out[p] == j;
                            if p < k {
                                assert(out@[p] == j);
                            } else {
                                assert(out@[p + 1] == j);
                            }
                        }
                    }
                }
            }
        } else {
            proof {
                assert forall|j: usize|
                    #![trigger out@.contains(j)]
                    out@.contains(j) <==> (j < i + 1 && passes_filters(devices@[j as int], kind, conn)) by {
                    if out@.contains(j) {
                        let p = choose|p: int| 0 <= p < out@.len() && out@[p] == j;
                        assert(out@[p] < i);
                    }
                }
            }
        }
        i = i + 1;
    }
    out
}

/// Whether any filter narrows the list.
pub fn filters_active(kind: DeviceTypeFilter, conn: ConnectionFilter) -> (r: bool)
    ensures
        r == (kind != DeviceTypeFilter::All || conn != ConnectionFilter::All),
{
    kind != DeviceTypeFilter::All || conn != ConnectionFilter::All
}

/// The number of connected devices.
pub open spec fn connected_total(devices: Seq<DeviceState>) -> nat
    decreases devices.len(),
{
    if devices.len() == 0 {
        0
    } else {
        connected_total(devices.drop_last()) + if connected(devices.last()) {
            1nat
        } else {
            0nat
        }
    }
}

/// Counts the connected devices.
pub fn connected_count(devices: &Vec<DeviceState>) -> (r: usize)
    ensures
        r == connected_total(devices@),
{
    let n = devices.len();
    let mut c: usize = 0;
    let mut i: usize = 0;
    assert(devices@.take(0) =~= Seq::<DeviceState>::empty());
    while i < n
        invariant
            n == devices@.len(),
            i <= n,
            c == connected_total(devices@.take(i as int)),
            c <= i,
        decreases n - i,
    {
        proof {
            assert(devices@.take(i + 1).drop_last() =~= devices@.take(i as int));
            assert(devices@.take(i + 1).last() == devices@[i as int]);
        }
        if is_connected(&devices[i]) {
            c = c + 1;
        }
        i = i + 1;
    }
    assert(devices@.take(n as int) =~= devices@);
    c
}

} // verus!

verus! {

/// The identifiers of the disconnected devices, in list order.
pub open spec fn disconnected_ids(devices: Seq<DeviceState>) -> Seq<Seq<char>>
    decreases devices.len(),
{
    if devices.len() == 0 {
        Seq::empty()
    } else {
        let rest = disconnected_ids(devices.drop_last());
        if devices.last().connection is Disconnected {
            rest.push(devices.last().id@)
        } else {
            rest
        }
    }
}

/// Requests for each device whose identifier `ids` lists, in order:
/// connecting (`connect`) or disconnecting.
pub open spec fn bulk_requests(actions: Seq<crate::ui::UiAction>, ids: Seq<Seq<char>>, connect: bool) -> bool {
    &&& actions.len() == ids.len()
    &&& forall|k: int|
        #![trigger actions[k]]
        0 <= k < actions.len() ==> if connect {
            actions[k] matches crate::ui::UiAction::Connect { device_id } && device_id@ == ids[k]
        } else {
            actions[k] matches crate::ui::UiAction::Disconnect { device_id } && device_id@ == ids[k]
        }
}

/// The requests for every device in state `Disconnected` (`connect`) or
/// `Connected`.
fn bulk_actions(devices: &Vec<DeviceState>, connect: bool) -> (r: Vec<crate::ui::UiAction>)
    ensures
        bulk_requests(r@, bulk_ids(devices@, connect), connect),
{
    let n = devices.len();
    let mut out: Vec<crate::ui::UiAction> = Vec::new();
    let mut i: usize = 0;
    assert(devices@.take(0) =~= Seq::<DeviceState>::empty());
    while i < n
        invariant
            n == devices@.len(),
            i <= n,
            bulk_requests(out@, bulk_ids(devices@.take(i as int), connect), connect),
        decreases n - i,
    {
        proof {
            assert(devices@.take(i + 1).drop_last() =~= devices@.take(i as int));
            assert(devices@.take(i + 1).last() == devices@[i as int]);
        }
        let ghost before = out@;
        let take = match devices[i].connection {
            ConnectionState::Disconnected => connect,
            ConnectionState::Connected => !connect,
            _ => false,
        };
        if take {
            let device_id = devices[i].id.clone();
            if connect {
                out.push(crate::ui::UiAction::Connect { device_id });
            } else {
                out.push(crate::ui::UiAction::Disconnect { device_id });
            }
        }
        proof {
            let t = devices@.take(i + 1);
            assert(bulk_ids(t, connect) == (if bulk_picks(devices@[i as int], connect) {
                bulk_ids(devices@.take(i as int), connect).push(devices@[i as int].id@)
            } else {
                bulk_ids(devices@.take(i as int), connect)
            }));
            if take {
                assert(out@.drop_last() == before);
            }
        }
        i = i + 1;
    }
    assert(devices@.take(n as int) =~= devices@);
    out
}

/// Whether a bulk action concerns a device: connecting concerns the
/// disconnected ones, disconnecting the connected ones.
pub open spec fn bulk_picks(d: DeviceState, connect: bool) -> bool {
    if connect {
        d.connection is Disconnected
    } else {
        d.connection is Connected
    }
}

/// The identifiers of the devices a bulk action concerns, in list order.
pub open spec fn bulk_ids(devices: Seq<DeviceState>, connect: bool) -> Seq<Seq<char>> {
    if connect {
        disconnected_ids(devices)
    } else {
        crate::ui::connected_ids(devices)
    }
}

/// "Connect All" (offered when some device is disconnected): a connection
/// request for each disconnected device, and a status line.
pub fn connect_all(app: &mut crate::session::AppState) -> (actions: Vec<crate::ui::UiAction>)
    requires
        old(app).wf(),
    ensures
        final(app).wf(),
        disconnected_ids(old(app).devices@).len() == 0 ==> *final(app) == *old(app) && actions@.len() == 0,
        disconnected_ids(old(app).devices@).len() > 0 ==> {
            &&& final(app).status@ == "Connecting to all devices..."@
            &&& crate::session::kept(
                *old(app),
                *final(app),
                crate::session::Touched { status: true, ..crate::session::untouched() },
            )
            &&& bulk_requests(actions@, disconnected_ids(old(app).devices@), true)
        },
{
    let actions = bulk_actions(&app.devices, true);
    if actions.len() > 0 {
        app.status = String::from_str("Connecting to all devices...");
    }
    actions
}

/// "Disconnect All" (offered when some device is connected): a disconnect
/// request for each connected device, and a status line.
pub fn disconnect_all(app: &mut crate::session::AppState) -> (actions: Vec<crate::ui::UiAction>)
    requires
        old(app).wf(),
    ensures
        final(app).wf(),
        crate::ui::connected_ids(old(app).devices@).len() == 0 ==> *final(app) == *old(app) && actions@.len()
            == 0,
        crate::ui::connected_ids(old(app).devices@).len() > 0 ==> {
            &&& final(app).status@ == "Disconnecting from all devices..."@
            &&& crate::session::kept(
                *old(app),
                *final(app),
                crate::session::Touched { status: true, ..crate::session::untouched() },
            )
            &&& bulk_requests(actions@, crate::ui::connected_ids(old(app).devices@), false)
        },
{
    let actions = bulk_actions(&app.devices, false);
    if actions.len() > 0 {
        app.status = String::from_str("Disconnecting from all devices...");
    }
    actions
}

/// The count line shown while filters are active: `Showing N of M`.
pub fn showing_text(shown: usize, total: usize) -> (r: String)
    ensures
        r@ == "Showing "@ + crate::text::dec(shown as nat) + " of "@ + crate::text::dec(total as nat),
{
    let mut s = String::from_str("Showing ");
    crate::text::push_dec(&mut s, shown as u64);
    crate::text::push_str(&mut s, " of ");
    crate::text::push_dec(&mut s, total as u64);
    s
}

/// The short kind label of a device in the list.
pub fn list_kind_label(t: DeviceType) -> (r: &'static str)
    ensures
        r@ == match t {
            DeviceType::Aranet4 => "CO2"@,
            DeviceType::Aranet2 => "T/H"@,
            DeviceType::AranetRadon => "Rn"@,
            DeviceType::AranetRadiation => "Rad"@,
        },
{
    match t {
        DeviceType::Aranet4 => "CO2",
        DeviceType::Aranet2 => "T/H",
        DeviceType::AranetRadon => "Rn",
        DeviceType::AranetRadiation => "Rad",
    }
}

/// The signal strength in the list: `NdB`.
pub fn list_signal_text(rssi: i16) -> (r: String)
    ensures
        r@ == crate::text::dec_int(rssi as int) + "dB"@,
{
    let mut s = crate::text::i64_to_string(rssi as i64);
    crate::text::push_str(&mut s, "dB");
    s
}

/// The low-battery badge in the list, below 20%: `N% bat`.
pub fn list_battery_badge(battery: u8) -> (r: Option<String>)
    ensures
        battery >= 20 ==> r is None,
        battery < 20 ==> (r matches Some(s) && s@ == crate::text::dec(battery as nat) + "% bat"@),
{
    if battery >= 20 {
        return None;
    }
    let mut s = String::new();
    crate::text::push_dec(&mut s, battery as u64);
    crate::text::push_str(&mut s, "% bat");
    Some(s)
}

/// The value a device's list entry shows first.
#[derive(Debug, Clone, Copy, PartialEq, Eq, Structural)]
pub enum PrimaryValue {
    /// CO2 in ppm (devices that measure it).
    Co2(u16),
    /// Radon in Bq/m³.
    Radon(u32),
    /// The radiation rate or, failing that, the temperature, which the
    /// caller shows.
    Other,
}

/// The value a list entry shows first: CO2 when measured, else radon,
/// else another value.
pub fn primary_value(r: &crate::device::CurrentReading) -> (v: PrimaryValue)
    ensures
        v == (if r.co2 > 0 {
            PrimaryValue::Co2(r.co2)
        } else if r.radon is Some {
            PrimaryValue::Radon(r.radon->0)
        } else {
            PrimaryValue::Other
        }),
{
    if r.co2 > 0 {
        PrimaryValue::Co2(r.co2)
    } else {
        match r.radon {
            Some(bq) => PrimaryValue::Radon(bq),
            None => PrimaryValue::Other,
        }
    }
}

} // verus!
