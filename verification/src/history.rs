//! Measurement history: the records the interface keeps and the radon
//! averages over the last day, week and month.

use time::OffsetDateTime;
use vstd::prelude::*;
use crate::config::{parse_u64, u64_text_value};
use crate::text::{dec, push_char, push_dec, push_str, split_at_char, split_on, trim_text, trimmed};
use crate::timefmt::now_utc;
use crate::types::HistoryFilter;

verus! {

/// Nanoseconds in one day.
pub const NANOS_PER_DAY: i128 = 86_400_000_000_000;

/// A stored history record, with the values the history logic reads.
#[derive(Debug, Clone, Copy)]
pub struct HistoryRecord {
    /// When the record was taken, in nanoseconds since the Unix epoch.
    pub timestamp_nanos: i128,
    /// CO2 concentration in ppm (0 when the device does not measure it).
    pub co2: u16,
    /// Relative humidity in percent.
    pub humidity: u8,
    /// Radon concentration in Bq/m³, for radon devices.
    pub radon: Option<u32>,
}

/// Nanoseconds since the Unix epoch (`OffsetDateTime::unix_timestamp_nanos`).
///
/// Trusted: dates are limited to years -999 999 to 999 999 even with the
/// crate's `large-dates` feature, which bounds the result well inside ±4·10²² ns.
#[verifier::external_body]
pub(crate) fn unix_nanos_of(t: &OffsetDateTime) -> (r: i128)
    ensures
        -40_000_000_000_000_000_000_000 < r < 40_000_000_000_000_000_000_000,
{
    t.unix_timestamp_nanos()
}

/// Whether a record holds a radon value taken at or after `since`.
pub open spec fn radon_in_window(r: HistoryRecord, since: int) -> bool {
    r.radon is Some && r.timestamp_nanos >= since
}

/// Sum of the radon values of the records in the window.
pub open spec fn window_sum(h: Seq<HistoryRecord>, since: int) -> nat
    decreases h.len(),
{
    if h.len() == 0 {
        0
    } else {
        window_sum(h.drop_last(), since) + if radon_in_window(h.last(), since) {
            h.last().radon->0 as nat
        } else {
            0
        }
    }
}

/// Number of records in the window.
pub open spec fn window_count(h: Seq<HistoryRecord>, since: int) -> nat
    decreases h.len(),
{
    if h.len() == 0 {
        0
    } else {
        window_count(h.drop_last(), since) + if radon_in_window(h.last(), since) {
            1nat
        } else {
            0nat
        }
    }
}

/// The average radon value of a window, truncated as an integer division,
/// or `None` for an empty window.
pub open spec fn window_average(h: Seq<HistoryRecord>, since: int) -> Option<u32> {
    if window_count(h, since) > 0 {
        Some((window_sum(h, since) / window_count(h, since)) as u32)
    } else {
        None
    }
}

/// The radon averages over the last day, week and month before `now`.
pub open spec fn radon_averages(h: Seq<HistoryRecord>, now: int) -> (
    Option<u32>,
    Option<u32>,
    Option<u32>,
) {
    (
        window_average(h, now - NANOS_PER_DAY),
        window_average(h, now - 7 * NANOS_PER_DAY),
        window_average(h, now - 30 * NANOS_PER_DAY),
    )
}

proof fn lemma_window_bounds(h: Seq<HistoryRecord>, since: int)
    ensures
        window_count(h, since) <= h.len(),
        window_sum(h, since) <= window_count(h, since) * (u32::MAX as nat),
    decreases h.len(),
{
    if h.len() > 0 {
        lemma_window_bounds(h.drop_last(), since);
    }
}

/// The radon averages over the last day, week and month before `now_nanos`.
#[verifier::rlimit(30)]
pub fn radon_averages_at(history: &[HistoryRecord], now_nanos: i128) -> (r: (
    Option<u32>,
    Option<u32>,
    Option<u32>,
))
    requires
        history@.len() <= u32::MAX,
        now_nanos >= i128::MIN + 30 * NANOS_PER_DAY,
    ensures
        r == radon_averages(history@, now_nanos as int),
{
    let day_ago = now_nanos - NANOS_PER_DAY;
    let week_ago = now_nanos - 7 * NANOS_PER_DAY;
    let month_ago = now_nanos - 30 * NANOS_PER_DAY;
    let mut day_sum: u64 = 0;
    let mut day_count: u32 = 0;
    let mut week_sum: u64 = 0;
    let mut week_count: u32 = 0;
    let mut month_sum: u64 = 0;
    let mut month_count: u32 = 0;
    let n = history.len();
    let mut i: usize = 0;
    while i < n
        invariant
            n == history@.len(),
            n <= u32::MAX,
            i <= n,
            day_ago == now_nanos - NANOS_PER_DAY,
            week_ago == now_nanos - 7 * NANOS_PER_DAY,
            month_ago == now_nanos - 30 * NANOS_PER_DAY,
            day_sum == window_sum(history@.take(i as int), day_ago as int),
            day_count == window_count(history@.take(i as int), day_ago as int),
            week_sum == window_sum(history@.take(i as int), week_ago as int),
            week_count == window_count(history@.take(i as int), week_ago as int),
            month_sum == window_sum(history@.take(i as int), month_ago as int),
            month_count == window_count(history@.take(i as int), month_ago as int),
        decreases n - i,
    {
        let record = history[i];
        let ghost prefix = history@.take(i as int);
        let ghost next = history@.take(i + 1);
        assert(next.drop_last() =~= prefix);
        assert(next.last() == record);
        proof {
            lemma_window_bounds(prefix, day_ago as int);
            lemma_window_bounds(prefix, week_ago as int);
            lemma_window_bounds(prefix, month_ago as int);
            assert(i * (u32::MAX as nat) + u32::MAX <= u64::MAX) by (nonlinear_arith)
                requires
                    i < u32::MAX,
            ;
            assert(window_sum(prefix, day_ago as int) <= i * (u32::MAX as nat)) by (nonlinear_arith)
                requires
                    window_sum(prefix, day_ago as int) <= window_count(prefix, day_ago as int) * (
                    u32::MAX as nat),
                    window_count(prefix, day_ago as int) <= i,
            ;
            assert(window_sum(prefix, week_ago as int) <= i * (u32::MAX as nat)) by (
            nonlinear_arith)
                requires
                    window_sum(prefix, week_ago as int) <= window_count(prefix, week_ago as int) * (
                    u32::MAX as nat),
                    window_count(prefix, week_ago as int) <= i,
            ;
            assert(window_sum(prefix, month_ago as int) <= i * (u32::MAX as nat)) by (
            nonlinear_arith)
                requires
                    window_sum(prefix, month_ago as int) <= window_count(prefix, month_ago as int)
                        * (u32::MAX as nat),
                    window_count(prefix, month_ago as int) <= i,
            ;
        }
        match record.radon {
            Some(radon) => {
                if record.timestamp_nanos >= month_ago {
                    month_sum = month_sum + radon as u64;
                    month_count = month_count + 1;
                    if record.timestamp_nanos >= week_ago {
                        week_sum = week_sum + radon as u64;
                        week_count = week_count + 1;
                        if record.timestamp_nanos >= day_ago {
                            day_sum = day_sum + radon as u64;
                            day_count = day_count + 1;
                        }
                    }
                }
            },
            None => {},
        }
        i = i + 1;
    }
    assert(history@.take(n as int) =~= history@);
    let day_avg = if day_count > 0 {
        Some((day_sum / day_count as u64) as u32)
    } else {
        None
    };
    let week_avg = if week_count > 0 {
        Some((week_sum / week_count as u64) as u32)
    } else {
        None
    };
    let month_avg = if month_count > 0 {
        Some((month_sum / month_count as u64) as u32)
    } else {
        None
    };
    (day_avg, week_avg, month_avg)
}

/// The radon averages over the last day, week and month, reading the clock.
pub fn calculate_radon_averages(history: &[HistoryRecord]) -> (r: (
    Option<u32>,
    Option<u32>,
    Option<u32>,
))
    requires
        history@.len() <= u32::MAX,
    ensures
        exists|now: int| r == radon_averages(history@, now),
{
    let now = now_utc();
    let now_nanos = unix_nanos_of(&now);
    radon_averages_at(history, now_nanos)
}

} // verus!

verus! {

/// Whether the history view shows a record under `filter` at time `now`
/// (nanoseconds): the last day, week or month are windows ending at `now`
/// (a record strictly newer than their start), and a custom range keeps
/// records between its optional bounds, both included.
pub open spec fn shown_under(
    r: HistoryRecord,
    filter: HistoryFilter,
    now: int,
    start: Option<i128>,
    end: Option<i128>,
) -> bool {
    match filter {
        HistoryFilter::All => true,
        HistoryFilter::Last24Hours => now - r.timestamp_nanos < NANOS_PER_DAY,
        HistoryFilter::Last7Days => now - r.timestamp_nanos < 7 * NANOS_PER_DAY,
        HistoryFilter::Last30Days => now - r.timestamp_nanos < 30 * NANOS_PER_DAY,
        HistoryFilter::Custom => {
            &&& (start matches Some(s) ==> r.timestamp_nanos >= s)
            &&& (end matches Some(e) ==> r.timestamp_nanos <= e)
        },
    }
}

/// The records shown under a filter, in order.
pub open spec fn shown_records(
    h: Seq<HistoryRecord>,
    filter: HistoryFilter,
    now: int,
    start: Option<i128>,
    end: Option<i128>,
) -> Seq<HistoryRecord>
    decreases h.len(),
{
    if h.len() == 0 {
        h
    } else {
        let rest = shown_records(h.drop_last(), filter, now, start, end);
        if shown_under(h.last(), filter, now, start, end) {
            rest.push(h.last())
        } else {
            rest
        }
    }
}

/// The records the history view shows under `filter` at `now_nanos`, in
/// their order; `custom_start` and `custom_end` bound a custom range.
#[verifier::rlimit(30)]
pub fn filter_history(
    history: &[HistoryRecord],
    filter: HistoryFilter,
    now_nanos: i128,
    custom_start: Option<i128>,
    custom_end: Option<i128>,
) -> (r: Vec<HistoryRecord>)
    requires
        -40_000_000_000_000_000_000_000 < now_nanos < 40_000_000_000_000_000_000_000,
    ensures
        r@ == shown_records(history@, filter, now_nanos as int, custom_start, custom_end),
{
    let n = history.len();
    let mut out: Vec<HistoryRecord> = Vec::new();
    let mut i: usize = 0;
    assert(history@.take(0) =~= Seq::<HistoryRecord>::empty());
    while i < n
        invariant
            n == history@.len(),
            i <= n,
            -40_000_000_000_000_000_000_000 < now_nanos < 40_000_000_000_000_000_000_000,
            out@ == shown_records(history@.take(i as int), filter, now_nanos as int, custom_start, custom_end),
        decreases n - i,
    {
        let r = history[i];
        proof {
            assert(history@.take(i + 1).drop_last() =~= history@.take(i as int));
            assert(history@.take(i + 1).last() == r);
        }
        let keep = match filter {
            HistoryFilter::All => true,
            HistoryFilter::Last24Hours => r.timestamp_nanos > now_nanos - NANOS_PER_DAY,
            HistoryFilter::Last7Days => r.timestamp_nanos > now_nanos - 7 * NANOS_PER_DAY,
            HistoryFilter::Last30Days => r.timestamp_nanos > now_nanos - 30 * NANOS_PER_DAY,
            HistoryFilter::Custom => {
                let after_start = match custom_start {
                    Some(s) => r.timestamp_nanos >= s,
                    None => true,
                };
                let before_end = match custom_end {
                    Some(e) => r.timestamp_nanos <= e,
                    None => true,
                };
                after_start && before_end
            },
        };
        if keep {
            out.push(r);
        }
        i = i + 1;
    }
    assert(history@.take(n as int) =~= history@);
    out
}

/// The end of a custom range that ends on the day starting at `day_start`
/// (nanoseconds): one second before the next day.
pub fn end_of_day(day_start: i128) -> (r: i128)
    requires
        -40_000_000_000_000_000_000_000 < day_start < 40_000_000_000_000_000_000_000,
    ensures
        r == day_start + NANOS_PER_DAY - 1_000_000_000,
{
    day_start + NANOS_PER_DAY - 1_000_000_000
}

/// How long ago the history was last synced, from the elapsed seconds:
/// `just now` under a minute, then whole minutes, hours or days.
pub open spec fn sync_age_text(secs: int) -> Seq<char> {
    if secs < 60 {
        "just now"@
    } else if secs < 3600 {
        dec((secs / 60) as nat) + " min ago"@
    } else if secs < 86400 {
        dec((secs / 3600) as nat) + " hr ago"@
    } else {
        dec((secs / 86400) as nat) + " days ago"@
    }
}

/// Renders how long ago the history was last synced (`Last synced: ...`
/// shows this text); `elapsed_secs` is the whole number of seconds since.
pub fn format_sync_age(elapsed_secs: i64) -> (r: String)
    ensures
        r@ == sync_age_text(elapsed_secs as int),
{
    if elapsed_secs < 60 {
        String::from_str("just now")
    } else if elapsed_secs < 3600 {
        let mut s = String::new();
        push_dec(&mut s, (elapsed_secs / 60) as u64);
        push_str(&mut s, " min ago");
        s
    } else if elapsed_secs < 86400 {
        let mut s = String::new();
        push_dec(&mut s, (elapsed_secs / 3600) as u64);
        push_str(&mut s, " hr ago");
        s
    } else {
        let mut s = String::new();
        push_dec(&mut s, (elapsed_secs / 86400) as u64);
        push_str(&mut s, " days ago");
        s
    }
}

/// Shrinking the window never shows more: a record shown in the last day
/// is shown in the last week, and one shown in the last week is shown in
/// the last month.
pub proof fn lemma_windows_nest(r: HistoryRecord, now: int, start: Option<i128>, end: Option<i128>)
    ensures
        shown_under(r, HistoryFilter::Last24Hours, now, start, end) ==> shown_under(
            r,
            HistoryFilter::Last7Days,
            now,
            start,
            end,
        ),
        shown_under(r, HistoryFilter::Last7Days, now, start, end) ==> shown_under(
            r,
            HistoryFilter::Last30Days,
            now,
            start,
            end,
        ),
        shown_under(r, HistoryFilter::All, now, start, end),
{
}

/// The history view keeps the history's order: the shown records are
/// records of the history at strictly increasing positions.
pub proof fn lemma_shown_records_in_order(
    h: Seq<HistoryRecord>,
    filter: HistoryFilter,
    now: int,
    start: Option<i128>,
    end: Option<i128>,
) -> (positions: Seq<int>)
    ensures
        positions.len() == shown_records(h, filter, now, start, end).len(),
        forall|k: int|
            0 <= k < positions.len() ==> 0 <= #[trigger] positions[k] < h.len() && shown_records(
                h,
                filter,
                now,
                start,
                end,
            )[k] == h[positions[k]],
        forall|a: int, b: int| 0 <= a < b < positions.len() ==> #[trigger] positions[a] < #[trigger] positions[b],
    decreases h.len(),
{
    if h.len() == 0 {
        Seq::empty()
    } else {
        let p = h.drop_last();
        let rest = lemma_shown_records_in_order(p, filter, now, start, end);
        assert forall|k: int| 0 <= k < rest.len() implies h[rest[k]] == p[rest[k]] by {}
        if shown_under(h.last(), filter, now, start, end) {
            let positions = rest.push(h.len() - 1);
            assert forall|k: int| 0 <= k < positions.len() implies 0 <= #[trigger] positions[k] < h.len()
                && shown_records(h, filter, now, start, end)[k] == h[positions[k]] by {
                if k < rest.len() {
                    assert(positions[k] == rest[k]);
                }
            }
            assert forall|a: int, b: int| 0 <= a < b < positions.len() implies #[trigger] positions[a]
                < #[trigger] positions[b] by {
                if b < rest.len() {
                    assert(positions[a] == rest[a] && positions[b] == rest[b]);
                } else {
                    assert(positions[a] == rest[a]);
                }
            }
            positions
        } else {
            rest
        }
    }
}

/// The history view shows exactly the records that fall in the chosen
/// range: everything for "all"; those less than a day, a week or thirty
/// days old for the windows; and for a custom range those at or after its
/// start and at or before its end, a missing bound leaving that side open.
pub proof fn lemma_shown_records_membership(
    h: Seq<HistoryRecord>,
    filter: HistoryFilter,
    now: int,
    start: Option<i128>,
    end: Option<i128>,
    x: HistoryRecord,
)
    ensures
        shown_records(h, filter, now, start, end).contains(x) <==> h.contains(x) && match filter {
            HistoryFilter::All => true,
            HistoryFilter::Last24Hours => x.timestamp_nanos > now - 86_400_000_000_000,
            HistoryFilter::Last7Days => x.timestamp_nanos > now - 604_800_000_000_000,
            HistoryFilter::Last30Days => x.timestamp_nanos > now - 2_592_000_000_000_000,
            HistoryFilter::Custom => (start is None || x.timestamp_nanos >= start->0) && (end is None
                || x.timestamp_nanos <= end->0),
        },
    decreases h.len(),
{
    if h.len() > 0 {
        let p = h.drop_last();
        lemma_shown_records_membership(p, filter, now, start, end, x);
        let rest = shown_records(p, filter, now, start, end);
        assert(h =~= p.push(h.last()));
        if h.contains(x) && !p.contains(x) {
            let k = choose|k: int| 0 <= k < h.len() && h[k] == x;
            if k < h.len() - 1 {
                assert(p[k] == x);
            }
            assert(x == h.last());
        }
        if p.contains(x) {
            let k = choose|k: int| 0 <= k < p.len() && p[k] == x;
            assert(h[k] == x);
        }
        if shown_under(h.last(), filter, now, start, end) {
            assert(rest.push(h.last())[rest.len() as int] == h.last());
            if rest.contains(x) {
                let k = choose|k: int| 0 <= k < rest.len() && rest[k] == x;
                assert(rest.push(h.last())[k] == x);
            }
            if rest.push(h.last()).contains(x) && x != h.last() {
                let k = choose|k: int| 0 <= k < rest.len() + 1 && rest.push(h.last())[k] == x;
                assert(rest[k] == x);
            }
        }
    }
}

} // verus!

verus! {

/// A window that starts later holds no more radon records, and no larger
/// sum, than one that starts earlier: the last day is within the last week,
/// which is within the last month.
pub proof fn lemma_radon_windows_nest(h: Seq<HistoryRecord>, later: int, earlier: int)
    requires
        earlier <= later,
    ensures
        window_count(h, later) <= window_count(h, earlier),
        window_sum(h, later) <= window_sum(h, earlier),
    decreases h.len(),
{
    if h.len() > 0 {
        lemma_radon_windows_nest(h.drop_last(), later, earlier);
    }
}

proof fn lemma_empty_window_sum(h: Seq<HistoryRecord>, since: int)
    requires
        window_count(h, since) == 0,
    ensures
        window_sum(h, since) == 0,
    decreases h.len(),
{
    if h.len() > 0 {
        lemma_empty_window_sum(h.drop_last(), since);
    }
}

/// A record of the window whose value, taken once per record, is at most the window's sum.
proof fn lemma_window_low(h: Seq<HistoryRecord>, since: int) -> (i: int)
    requires
        window_count(h, since) > 0,
    ensures
        0 <= i < h.len(),
        radon_in_window(h[i], since),
        window_count(h, since) * (h[i].radon->0 as int) <= window_sum(h, since),
    decreases h.len(),
{
    let p = h.drop_last();
    let x = h.last();
    if !radon_in_window(x, since) {
        let i = lemma_window_low(p, since);
        assert(h[i] == p[i]);
        assert(window_count(h, since) == window_count(p, since));
        assert(window_sum(h, since) == window_sum(p, since));
        i
    } else if window_count(p, since) == 0 {
        lemma_empty_window_sum(p, since);
        assert(window_count(h, since) == 1);
        assert(window_sum(h, since) == x.radon->0 as int);
        h.len() - 1
    } else {
        let i = lemma_window_low(p, since);
        assert(h[i] == p[i]);
        let c = window_count(p, since) as int;
        let s = window_sum(p, since) as int;
        let vi = p[i].radon->0 as int;
        let vx = x.radon->0 as int;
        assert(window_count(h, since) == c + 1);
        assert(window_sum(h, since) == s + vx);
        if vx >= vi {
            assert((c + 1) * vi <= s + vx) by (nonlinear_arith)
                requires
                    c * vi <= s,
                    vi <= vx,
            ;
            i
        } else {
            assert((c + 1) * vx <= s + vx) by (nonlinear_arith)
                requires
                    c * vi <= s,
                    vx < vi,
                    c > 0,
            ;
            h.len() - 1
        }
    }
}

/// A record of the window whose value, taken once per record, is at least the window's sum.
proof fn lemma_window_high(h: Seq<HistoryRecord>, since: int) -> (j: int)
    requires
        window_count(h, since) > 0,
    ensures
        0 <= j < h.len(),
        radon_in_window(h[j], since),
        window_sum(h, since) <= window_count(h, since) * (h[j].radon->0 as int),
    decreases h.len(),
{
    let p = h.drop_last();
    let x = h.last();
    if !radon_in_window(x, since) {
        let j = lemma_window_high(p, since);
        assert(h[j] == p[j]);
        assert(window_count(h, since) == window_count(p, since));
        assert(window_sum(h, since) == window_sum(p, since));
        j
    } else if window_count(p, since) == 0 {
        lemma_empty_window_sum(p, since);
        assert(window_count(h, since) == 1);
        assert(window_sum(h, since) == x.radon->0 as int);
        h.len() - 1
    } else {
        let j = lemma_window_high(p, since);
        assert(h[j] == p[j]);
        let c = window_count(p, since) as int;
        let s = window_sum(p, since) as int;
        let vj = p[j].radon->0 as int;
        let vx = x.radon->0 as int;
        assert(window_count(h, since) == c + 1);
        assert(window_sum(h, since) == s + vx);
        if vx <= vj {
            assert(s + vx <= (c + 1) * vj) by (nonlinear_arith)
                requires
                    s <= c * vj,
                    vx <= vj,
            ;
            j
        } else {
            assert(s + vx <= (c + 1) * vx) by (nonlinear_arith)
                requires
                    s <= c * vj,
                    vj < vx,
                    c > 0,
            ;
            h.len() - 1
        }
    }
}

/// The radon average of a non-empty window lies between the smallest and
/// the largest radon value in the window.
pub proof fn lemma_window_average_within(h: Seq<HistoryRecord>, since: int)
    requires
        window_count(h, since) > 0,
    ensures
        window_average(h, since) is Some,
        exists|i: int|
            0 <= i < h.len() && radon_in_window(h[i], since) && #[trigger] h[i].radon->0
                <= window_average(h, since)->0,
        exists|j: int|
            0 <= j < h.len() && radon_in_window(h[j], since) && window_average(h, since)->0
                <= #[trigger] h[j].radon->0,
{
    let c = window_count(h, since) as int;
    let s = window_sum(h, since) as int;
    let i = lemma_window_low(h, since);
    let j = lemma_window_high(h, since);
    let vi = h[i].radon->0 as int;
    let vj = h[j].radon->0 as int;
    assert(vi <= s / c) by (nonlinear_arith)
        requires
            c > 0,
            c * vi <= s,
    ;
    assert(s / c <= vj) by (nonlinear_arith)
        requires
            c > 0,
            s <= c * vj,
    ;
    assert(window_average(h, since)->0 == s / c);
    assert(h[i].radon->0 <= window_average(h, since)->0);
    assert(window_average(h, since)->0 <= h[j].radon->0);
}

/// Each of the radon averages over the last day, week and month lies
/// between the smallest and the largest radon value of its window.
pub proof fn lemma_radon_averages_within(h: Seq<HistoryRecord>, now: int)
    ensures
        radon_averages(h, now).0 matches Some(a) ==> (exists|i: int|
            0 <= i < h.len() && radon_in_window(h[i], now - NANOS_PER_DAY) && #[trigger] h[i].radon->0
                <= a) && (exists|j: int|
            0 <= j < h.len() && radon_in_window(h[j], now - NANOS_PER_DAY) && a
                <= #[trigger] h[j].radon->0),
        radon_averages(h, now).1 matches Some(a) ==> (exists|i: int|
            0 <= i < h.len() && radon_in_window(h[i], now - 7 * NANOS_PER_DAY) && #[trigger] h[i].radon->0
                <= a) && (exists|j: int|
            0 <= j < h.len() && radon_in_window(h[j], now - 7 * NANOS_PER_DAY) && a
                <= #[trigger] h[j].radon->0),
        radon_averages(h, now).2 matches Some(a) ==> (exists|i: int|
            0 <= i < h.len() && radon_in_window(h[i], now - 30 * NANOS_PER_DAY) && #[trigger] h[i].radon->0
                <= a) && (exists|j: int|
            0 <= j < h.len() && radon_in_window(h[j], now - 30 * NANOS_PER_DAY) && a
                <= #[trigger] h[j].radon->0),
{
    if window_count(h, now - NANOS_PER_DAY) > 0 {
        lemma_window_average_within(h, now - NANOS_PER_DAY);
    }
    if window_count(h, now - 7 * NANOS_PER_DAY) > 0 {
        lemma_window_average_within(h, now - 7 * NANOS_PER_DAY);
    }
    if window_count(h, now - 30 * NANOS_PER_DAY) > 0 {
        lemma_window_average_within(h, now - 30 * NANOS_PER_DAY);
    }
}

} // verus!

verus! {

/// Leap years of the proleptic Gregorian calendar.
pub open spec fn is_leap_year(y: int) -> bool {
    y % 4 == 0 && (y % 100 != 0 || y % 400 == 0)
}

/// The number of days of month `m` (1 to 12) in year `y`.
pub open spec fn days_in_month(y: int, m: int) -> int {
    if m == 2 {
        if is_leap_year(y) {
            29
        } else {
            28
        }
    } else if m == 4 || m == 6 || m == 9 || m == 11 {
        30
    } else {
        31
    }
}

/// The calendar dates the `time` crate represents: years -9999 to 9999,
/// months 1 to 12, and the days each month has.
pub open spec fn valid_calendar_date(y: int, m: int, d: int) -> bool {
    &&& -9999 <= y <= 9999
    &&& 1 <= m <= 12
    &&& 1 <= d <= days_in_month(y, m)
}

/// The leap years among the years 1 to `n` (a negative count below year 1),
/// whose differences count the leap days between two year starts.
pub open spec fn leap_years_through(n: int) -> int {
    n / 4 - n / 100 + n / 400
}

/// The days of year `y` before the first day of month `m` (1 to 12).
pub open spec fn days_before_month(y: int, m: int) -> int {
    let common = if m <= 1 {
        0int
    } else if m == 2 {
        31
    } else if m == 3 {
        59
    } else if m == 4 {
        90
    } else if m == 5 {
        120
    } else if m == 6 {
        151
    } else if m == 7 {
        181
    } else if m == 8 {
        212
    } else if m == 9 {
        243
    } else if m == 10 {
        273
    } else if m == 11 {
        304
    } else {
        334
    };
    if m > 2 && is_leap_year(y) {
        common + 1
    } else {
        common
    }
}

/// The days from 1970-01-01 to a day of the proleptic Gregorian calendar
/// (negative before it).
pub open spec fn days_since_epoch(y: int, m: int, d: int) -> int {
    365 * (y - 1970) + leap_years_through(y - 1) - leap_years_through(1969) + days_before_month(y, m)
        + d - 1
}

/// Midnight UTC at the start of a calendar day, in nanoseconds since the
/// Unix epoch.
pub open spec fn midnight_utc_nanos(year: int, month: int, day: int) -> int {
    days_since_epoch(year, month, day) * 86_400_000_000_000
}

/// For the days the calendar holds, midnight lies within 4·10^20 ns of the epoch.
proof fn lemma_midnight_bounds(y: int, m: int, d: int)
    requires
        valid_calendar_date(y, m, d),
    ensures
        -400_000_000_000_000_000_000 < midnight_utc_nanos(y, m, d) < 400_000_000_000_000_000_000,
{
    assert(-2500 <= leap_years_through(y - 1) <= 2500);
    assert(leap_years_through(1969) == 477);
    assert(0 <= days_before_month(y, m) <= 335);
    let days = days_since_epoch(y, m, d);
    assert(-4_400_000 < days < 3_000_000);
}

/// Midnight UTC at the start of a calendar day (`Month::try_from`,
/// `Date::from_calendar_date`, then `with_hms(0, 0, 0)`, `assume_utc` and
/// `unix_timestamp_nanos`), or `None` for a date that does not exist.
///
/// Trusted: the month must lie in 1 to 12, the year in -9999 to 9999 (the
/// crate's range without its `large-dates` feature) and the day within the
/// month, leap years included; the value is that day's midnight UTC counted
/// in the proleptic Gregorian calendar from the Unix epoch.
#[verifier::external_body]
fn calendar_midnight_nanos(year: i32, month: u8, day: u8) -> (r: Option<i128>)
    ensures
        (r is Some) == valid_calendar_date(year as int, month as int, day as int),
        r matches Some(v) ==> v == midnight_utc_nanos(year as int, month as int, day as int),
{
    let month = time::Month::try_from(month).ok()?;
    let date = time::Date::from_calendar_date(year, month, day).ok()?;
    Some(date.with_hms(0, 0, 0).ok()?.assume_utc().unix_timestamp_nanos())
}

/// The year, month and day a custom date text names, as `YYYY-MM-DD`: the
/// text without surrounding whitespace, split at `-` into exactly three
/// parts, each an unsigned decimal number (an optional `+`, then digits)
/// that fits the year's `i32` and the month's and day's `u8`.
pub open spec fn date_text_fields(s: Seq<char>) -> Option<(int, int, int)> {
    let parts = split_on(trimmed(s), '-');
    if parts.len() == 3 {
        match (u64_text_value(parts[0]), u64_text_value(parts[1]), u64_text_value(parts[2])) {
            (Some(y), Some(m), Some(d)) => if y <= i32::MAX && m <= 255 && d <= 255 {
                Some((y as int, m as int, d as int))
            } else {
                None
            },
            _ => None,
        }
    } else {
        None
    }
}

/// Midnight UTC of the day a custom date text names, when it names an
/// existing day.
pub open spec fn custom_date_nanos(s: Seq<char>) -> Option<int> {
    match date_text_fields(s) {
        Some((y, m, d)) => if valid_calendar_date(y, m, d) {
            Some(midnight_utc_nanos(y, m, d))
        } else {
            None
        },
        None => None,
    }
}

/// Reads the year, month and day a custom date text names.
fn date_fields(s: &str) -> (r: Option<(u32, u8, u8)>)
    ensures
        r is Some <==> date_text_fields(s@) is Some,
        r matches Some((y, m, d)) ==> date_text_fields(s@) == Some((y as int, m as int, d as int)),
{
    let t = trim_text(s);
    let parts = split_at_char(t.as_str(), '-');
    proof {
        assert(parts@.map_values(|p: String| p@).len() == parts@.len());
    }
    if parts.len() != 3 {
        return None;
    }
    proof {
        assert(parts@.map_values(|p: String| p@)[0] == parts@[0]@);
        assert(parts@.map_values(|p: String| p@)[1] == parts@[1]@);
        assert(parts@.map_values(|p: String| p@)[2] == parts@[2]@);
    }
    let y = parse_u64(parts[0].as_str());
    let m = parse_u64(parts[1].as_str());
    let d = parse_u64(parts[2].as_str());
    match (y, m, d) {
        (Some(y), Some(m), Some(d)) => {
            if y <= 2147483647 && m <= 255 && d <= 255 {
                Some((y as u32, m as u8, d as u8))
            } else {
                None
            }
        },
        _ => None,
    }
}

/// Parses a custom range date: midnight UTC of the day, or `None` when
/// the text does not name an existing day.
pub fn parse_custom_date(s: &str) -> (r: Option<i128>)
    ensures
        (r is Some) == (custom_date_nanos(s@) is Some),
        r matches Some(v) ==> custom_date_nanos(s@) == Some(v as int) && -400_000_000_000_000_000_000
            < v < 400_000_000_000_000_000_000,
{
    match date_fields(s) {
        Some((y, m, d)) => {
            let r = calendar_midnight_nanos(y as i32, m, d);
            proof {
                if r is Some {
                    lemma_midnight_bounds(y as int, m as int, d as int);
                }
            }
            r
        },
        None => None,
    }
}

/// Whether a custom end date text names the last day the calendar holds,
/// after which no day follows.
pub open spec fn names_last_day(s: Seq<char>) -> bool {
    date_text_fields(s) == Some((9999int, 12int, 31int))
}

/// The bounds of the custom range, in nanoseconds: from midnight of the
/// start day to the last second of the end day; a text that names no day
/// leaves that side open. Other filters have no bounds. The end of the last
/// day the calendar holds lies beyond it, so an end text naming that day is
/// left to `custom_range_checked`.
pub fn custom_range(filter: HistoryFilter, start: &str, end: &str) -> (r: (Option<i128>, Option<i128>))
    requires
        filter == HistoryFilter::Custom ==> !names_last_day(end@),
    ensures
        filter != HistoryFilter::Custom ==> r == (None::<i128>, None::<i128>),
        filter == HistoryFilter::Custom ==> {
            &&& (r.0 is Some) == (custom_date_nanos(start@) is Some)
            &&& (r.0 matches Some(v) ==> custom_date_nanos(start@) == Some(v as int))
            &&& (r.1 is Some) == (custom_date_nanos(end@) is Some)
            &&& (r.1 matches Some(v) ==> custom_date_nanos(end@) == Some(
                v - NANOS_PER_DAY + 1_000_000_000,
            ))
        },
{
    if filter != HistoryFilter::Custom {
        return (None, None);
    }
    let s = parse_custom_date(start);
    let e = match parse_custom_date(end) {
        Some(v) => Some(end_of_day(v)),
        None => None,
    };
    (s, e)
}

/// The bounds of the custom range as `custom_range` gives them, except that
/// an end text naming the last day the calendar holds, whose end no
/// following day marks, leaves the end open (`None`).
pub fn custom_range_checked(filter: HistoryFilter, start: &str, end: &str) -> (r: (Option<i128>, Option<i128>))
    ensures
        filter != HistoryFilter::Custom ==> r == (None::<i128>, None::<i128>),
        filter == HistoryFilter::Custom ==> {
            &&& (r.0 is Some) == (custom_date_nanos(start@) is Some)
            &&& (r.0 matches Some(v) ==> custom_date_nanos(start@) == Some(v as int))
            &&& (names_last_day(end@) ==> r.1 is None)
            &&& (!names_last_day(end@) ==> (r.1 is Some) == (custom_date_nanos(end@) is Some))
            &&& (r.1 matches Some(v) ==> custom_date_nanos(end@) == Some(
                v - NANOS_PER_DAY + 1_000_000_000,
            ))
        },
{
    if filter == HistoryFilter::Custom {
        if let Some((y, m, d)) = date_fields(end) {
            if y == 9999 && m == 12 && d == 31 {
                return (parse_custom_date(start), None);
            }
        }
    }
    custom_range(filter, start, end)
}

/// A number with at least `width` digits, zero-padded.
pub open spec fn zero_padded(n: nat, width: nat) -> Seq<char> {
    let d = dec(n);
    if d.len() < width {
        Seq::new((width - d.len()) as nat, |i: int| '0') + d
    } else {
        d
    }
}

/// A date as `{:04}-{:02}-{:02}` writes it: the year zero-padded to four
/// characters (a minus sign counting as one), month and day to two digits.
pub open spec fn date_text(y: int, m: nat, d: nat) -> Seq<char> {
    let year = if y < 0 {
        seq!['-'] + zero_padded((-y) as nat, 3)
    } else {
        zero_padded(y as nat, 4)
    };
    year + seq!['-'] + zero_padded(m, 2) + seq!['-'] + zero_padded(d, 2)
}

/// Appends a number zero-padded to `width` digits.
pub(crate) fn push_zero_padded(out: &mut String, n: u64, width: usize)
    requires
        width <= 4,
    ensures
        final(out)@ == old(out)@ + zero_padded(n as nat, width as nat),
{
    let digits = crate::text::u64_to_string(n);
    let len = digits.as_str().unicode_len();
    let ghost o = out@;
    let mut k: usize = len;
    while k < width
        invariant
            len == dec(n as nat).len(),
            len <= k,
            k <= width || len > width,
            len >= width ==> k == len,
            out@ == o + Seq::new((k - len) as nat, |i: int| '0'),
        decreases width - k,
    {
        push_char(out, '0');
        k = k + 1;
        assert(out@ =~= o + Seq::new((k - len) as nat, |i: int| '0'));
    }
    push_str(out, digits.as_str());
    if len < width {
        assert(k == width);
        assert(out@ =~= o + (Seq::new((width - len) as nat, |i: int| '0') + dec(n as nat)));
    } else {
        assert(k == len);
        assert(Seq::new((k - len) as nat, |i: int| '0') =~= Seq::<char>::empty());
        assert(out@ =~= o + dec(n as nat));
    }
}

/// A date as the custom range fields show it.
pub fn format_date(y: i32, m: u8, d: u8) -> (r: String)
    ensures
        r@ == date_text(y as int, m as nat, d as nat),
{
    let mut s = String::new();
    if y < 0 {
        push_char(&mut s, '-');
        push_zero_padded(&mut s, (0i64 - y as i64) as u64, 3);
    } else {
        push_zero_padded(&mut s, y as u64, 4);
    }
    push_char(&mut s, '-');
    push_zero_padded(&mut s, m as u64, 2);
    push_char(&mut s, '-');
    push_zero_padded(&mut s, d as u64, 2);
    s
}

/// Choosing a history filter: switching to the custom range with both
/// fields empty fills them with a week ending today (dates given as year,
/// month and day).
pub fn choose_history_filter(
    current: &mut HistoryFilter,
    start: &mut String,
    end: &mut String,
    chosen: HistoryFilter,
    today: (i32, u8, u8),
    week_ago: (i32, u8, u8),
)
    ensures
        *final(current) == chosen,
        (chosen == HistoryFilter::Custom && old(start)@.len() == 0 && old(end)@.len() == 0) ==> {
            &&& final(start)@ == date_text(week_ago.0 as int, week_ago.1 as nat, week_ago.2 as nat)
            &&& final(end)@ == date_text(today.0 as int, today.1 as nat, today.2 as nat)
        },
        !(chosen == HistoryFilter::Custom && old(start)@.len() == 0 && old(end)@.len() == 0) ==> {
            &&& final(start)@ == old(start)@
            &&& final(end)@ == old(end)@
        },
{
    *current = chosen;
    if chosen == HistoryFilter::Custom && start.as_str().unicode_len() == 0 && end.as_str().unicode_len()
        == 0 {
        *start = format_date(week_ago.0, week_ago.1, week_ago.2);
        *end = format_date(today.0, today.1, today.2);
    }
}

} // verus!
