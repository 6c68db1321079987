//! Wall-clock readings and their rendering: times of day, ages of
//! readings and staleness.

use time::OffsetDateTime;
use vstd::prelude::*;
use crate::text::{dec, lemma_cancel_suffix, lemma_dec_injective, push_char, push_dec, push_str};

verus! {

/// `time::OffsetDateTime`, carried through the library as an opaque value.
#[verifier::external_type_specification]
#[verifier::external_body]
pub struct ExOffsetDateTime(OffsetDateTime);

/// The current time in the local offset (`OffsetDateTime::now_local`), or
/// `None` when the local offset cannot be determined.
///
/// Trusted: nothing is promised of the value; it depends on the clock.
#[verifier::external_body]
pub(crate) fn now_local() -> Option<OffsetDateTime> {
    OffsetDateTime::now_local().ok()
}

/// The current time in UTC (`OffsetDateTime::now_utc`).
///
/// Trusted: nothing is promised of the value; it depends on the clock.
#[verifier::external_body]
pub(crate) fn now_utc() -> OffsetDateTime {
    OffsetDateTime::now_utc()
}

/// Hour of the day (`OffsetDateTime::hour`).
///
/// Trusted: the crate documents the result as lying in `0..24`.
#[verifier::external_body]
pub(crate) fn hour_of(t: &OffsetDateTime) -> (r: u8)
    ensures
        r < 24,
{
    t.hour()
}

/// Minute of the hour (`OffsetDateTime::minute`).
///
/// Trusted: the crate documents the result as lying in `0..60`.
#[verifier::external_body]
pub(crate) fn minute_of(t: &OffsetDateTime) -> (r: u8)
    ensures
        r < 60,
{
    t.minute()
}

/// Second of the minute (`OffsetDateTime::second`).
///
/// Trusted: the crate documents the result as lying in `0..60`.
#[verifier::external_body]
pub(crate) fn second_of(t: &OffsetDateTime) -> (r: u8)
    ensures
        r < 60,
{
    t.second()
}

/// Calendar year (`OffsetDateTime::year`).
///
/// Trusted: without the crate's `large-dates` feature dates lie in the years
/// -9999 to 9999.
#[verifier::external_body]
pub(crate) fn year_of(t: &OffsetDateTime) -> (r: i32)
    ensures
        -9999 <= r <= 9999,
{
    t.year()
}

/// Month of the year, 1 to 12 (`OffsetDateTime::month`, as `u8::from` numbers it).
///
/// Trusted: the crate numbers the months January = 1 to December = 12.
#[verifier::external_body]
pub(crate) fn month_of(t: &OffsetDateTime) -> (r: u8)
    ensures
        1 <= r <= 12,
{
    u8::from(t.month())
}

/// Day of the month (`OffsetDateTime::day`).
///
/// Trusted: the crate documents the result as lying in `1..=31`.
#[verifier::external_body]
pub(crate) fn day_of(t: &OffsetDateTime) -> (r: u8)
    ensures
        1 <= r <= 31,
{
    t.day()
}

/// Whole seconds from `earlier` to `later` (`OffsetDateTime - OffsetDateTime`,
/// read with `whole_seconds`); negative when `earlier` is in fact later.
///
/// Trusted: nothing is promised of the value beyond its type.
#[verifier::external_body]
pub(crate) fn whole_seconds_between(later: &OffsetDateTime, earlier: &OffsetDateTime) -> i64 {
    (*later - *earlier).whole_seconds()
}

/// A number below one hundred with two digits (zero-padded).
pub open spec fn two_digits(n: nat) -> Seq<char> {
    if n < 10 {
        seq!['0'] + dec(n)
    } else {
        dec(n)
    }
}

/// A time of day as `HH:MM:SS`.
pub open spec fn hms_text(h: nat, m: nat, s: nat) -> Seq<char> {
    two_digits(h) + seq![':'] + two_digits(m) + seq![':'] + two_digits(s)
}

pub(crate) fn push_two_digits(out: &mut String, n: u8)
    requires
        n < 100,
    ensures
        final(out)@ == old(out)@ + two_digits(n as nat),
{
    if n < 10 {
        push_char(out, '0');
    }
    push_dec(out, n as u64);
    assert(final(out)@ =~= old(out)@ + two_digits(n as nat));
}

/// Renders a time of day as `HH:MM:SS`.
pub fn format_hms(h: u8, m: u8, s: u8) -> (r: String)
    requires
        h < 100,
        m < 100,
        s < 100,
    ensures
        r@ == hms_text(h as nat, m as nat, s as nat),
{
    let mut out = String::new();
    push_two_digits(&mut out, h);
    push_char(&mut out, ':');
    push_two_digits(&mut out, m);
    push_char(&mut out, ':');
    push_two_digits(&mut out, s);
    assert(out@ =~= hms_text(h as nat, m as nat, s as nat));
    out
}

/// The current local time as `HH:MM:SS`, falling back to UTC when the local
/// offset cannot be determined.
pub fn local_time_text() -> (r: String)
    ensures
        exists|h: nat, m: nat, s: nat| h < 24 && m < 60 && s < 60 && r@ == hms_text(h, m, s),
{
    let now = match now_local() {
        Some(t) => t,
        None => now_utc(),
    };
    let h = hour_of(&now);
    let m = minute_of(&now);
    let s = second_of(&now);
    let r = format_hms(h, m, s);
    assert(h < 24 && m < 60 && s < 60 && r@ == hms_text(h as nat, m as nat, s as nat));
    r
}

/// The text for how long ago a reading was taken, from whole seconds.
pub open spec fn reading_age_text(total_seconds: int) -> Seq<char> {
    if total_seconds < 0 {
        "just now"@
    } else {
        let days = total_seconds / 86400;
        let hours = total_seconds / 3600;
        let minutes = total_seconds / 60;
        if days > 0 {
            if days == 1 { "1 day ago"@ } else { dec(days as nat) + " days ago"@ }
        } else if hours > 0 {
            if hours == 1 { "1 hour ago"@ } else { dec(hours as nat) + " hours ago"@ }
        } else if minutes > 0 {
            if minutes == 1 { "1 minute ago"@ } else { dec(minutes as nat) + " minutes ago"@ }
        } else {
            "just now"@
        }
    }
}

/// The endings of the age texts: a count of minutes, hours or days, or one
/// minute, hour or day.
spec fn age_ending(i: int) -> Seq<char> {
    if i == 0 {
        " minutes ago"@
    } else if i == 1 {
        " hours ago"@
    } else if i == 2 {
        " days ago"@
    } else if i == 3 {
        "1 minute ago"@
    } else if i == 4 {
        "1 hour ago"@
    } else {
        "1 day ago"@
    }
}

/// The last nine characters of a text.
spec fn last_nine(t: Seq<char>) -> Seq<char> {
    t.subrange(t.len() - 9, t.len() as int)
}

proof fn lemma_age_endings()
    ensures
        last_nine(age_ending(0)) == seq!['n', 'u', 't', 'e', 's', ' ', 'a', 'g', 'o'],
        last_nine(age_ending(1)) == seq!['h', 'o', 'u', 'r', 's', ' ', 'a', 'g', 'o'],
        last_nine(age_ending(2)) == seq![' ', 'd', 'a', 'y', 's', ' ', 'a', 'g', 'o'],
        last_nine(age_ending(3)) == seq!['i', 'n', 'u', 't', 'e', ' ', 'a', 'g', 'o'],
        last_nine(age_ending(4)) == seq![' ', 'h', 'o', 'u', 'r', ' ', 'a', 'g', 'o'],
        last_nine(age_ending(5)) == seq!['1', ' ', 'd', 'a', 'y', ' ', 'a', 'g', 'o'],
        forall|i: int| 0 <= i < 6 ==> #[trigger] age_ending(i).len() >= 9,
        "just now"@.len() == 8,
{
    reveal_strlit(" minutes ago");
    reveal_strlit(" hours ago");
    reveal_strlit(" days ago");
    reveal_strlit("1 minute ago");
    reveal_strlit("1 hour ago");
    reveal_strlit("1 day ago");
    reveal_strlit("just now");
    assert(" minutes ago"@ =~= seq![' ', 'm', 'i', 'n', 'u', 't', 'e', 's', ' ', 'a', 'g', 'o']);
    assert(" hours ago"@ =~= seq![' ', 'h', 'o', 'u', 'r', 's', ' ', 'a', 'g', 'o']);
    assert(" days ago"@ =~= seq![' ', 'd', 'a', 'y', 's', ' ', 'a', 'g', 'o']);
    assert("1 minute ago"@ =~= seq!['1', ' ', 'm', 'i', 'n', 'u', 't', 'e', ' ', 'a', 'g', 'o']);
    assert("1 hour ago"@ =~= seq!['1', ' ', 'h', 'o', 'u', 'r', ' ', 'a', 'g', 'o']);
    assert("1 day ago"@ =~= seq!['1', ' ', 'd', 'a', 'y', ' ', 'a', 'g', 'o']);
    assert("just now"@ =~= seq!['j', 'u', 's', 't', ' ', 'n', 'o', 'w']);
    assert(last_nine(age_ending(0)) =~= seq!['n', 'u', 't', 'e', 's', ' ', 'a', 'g', 'o']);
    assert(last_nine(age_ending(1)) =~= seq!['h', 'o', 'u', 'r', 's', ' ', 'a', 'g', 'o']);
    assert(last_nine(age_ending(2)) =~= seq![' ', 'd', 'a', 'y', 's', ' ', 'a', 'g', 'o']);
    assert(last_nine(age_ending(3)) =~= seq!['i', 'n', 'u', 't', 'e', ' ', 'a', 'g', 'o']);
    assert(last_nine(age_ending(4)) =~= seq![' ', 'h', 'o', 'u', 'r', ' ', 'a', 'g', 'o']);
    assert(last_nine(age_ending(5)) =~= seq!['1', ' ', 'd', 'a', 'y', ' ', 'a', 'g', 'o']);
}

/// Age texts with different endings differ, whatever comes before the
/// ending; none of them is "just now".
proof fn lemma_age_endings_distinct(p: Seq<char>, i: int, q: Seq<char>, j: int)
    requires
        0 <= i < 6,
        0 <= j < 6,
    ensures
        i != j ==> p + age_ending(i) != q + age_ending(j),
        p + age_ending(i) != "just now"@,
{
    lemma_age_endings();
    assert(age_ending(i).len() >= 9);
    assert(age_ending(j).len() >= 9);
    assert(last_nine(p + age_ending(i)) =~= last_nine(age_ending(i)));
    assert(last_nine(q + age_ending(j)) =~= last_nine(age_ending(j)));
    if i != j && p + age_ending(i) == q + age_ending(j) {
        assert(last_nine(age_ending(i))[0] == last_nine(age_ending(j))[0]);
        assert(last_nine(age_ending(i))[1] == last_nine(age_ending(j))[1]);
    }
}

/// Two counted age texts with the same ending are equal exactly when they
/// count the same number.
proof fn lemma_age_counts(k: nat, n: nat, i: int)
    ensures
        (dec(k) + age_ending(i) == dec(n) + age_ending(i)) <==> k == n,
{
    if dec(k) + age_ending(i) == dec(n) + age_ending(i) {
        lemma_cancel_suffix(dec(k), dec(n), age_ending(i));
        lemma_dec_injective(k, n);
    }
}

/// An age text tells the age it was made from: "N minutes ago" exactly for
/// N whole minutes from two minutes up to an hour, "N hours ago" exactly for
/// N whole hours from two hours up to a day, "N days ago" exactly for N whole
/// days from two days on, "1 minute ago", "1 hour ago" and "1 day ago" for
/// the first minute, hour and day of each, and "just now" under a minute.
pub proof fn lemma_reading_age_text_denotes(s: int, n: nat)
    ensures
        (reading_age_text(s) == dec(n) + " minutes ago"@) <==> (120 <= s < 3600 && n == s / 60),
        (reading_age_text(s) == dec(n) + " hours ago"@) <==> (7200 <= s < 86400 && n == s / 3600),
        (reading_age_text(s) == dec(n) + " days ago"@) <==> (172800 <= s && n == s / 86400),
        (reading_age_text(s) == "1 minute ago"@) <==> (60 <= s < 120),
        (reading_age_text(s) == "1 hour ago"@) <==> (3600 <= s < 7200),
        (reading_age_text(s) == "1 day ago"@) <==> (86400 <= s < 172800),
        (reading_age_text(s) == "just now"@) <==> s < 60,
{
    let t = reading_age_text(s);
    let e: Seq<char> = seq![];
    assert(e + age_ending(3) =~= "1 minute ago"@);
    assert(e + age_ending(4) =~= "1 hour ago"@);
    assert(e + age_ending(5) =~= "1 day ago"@);
    // the text, as a prefix and one of the endings (or "just now")
    let (p, i): (Seq<char>, int) = if s < 60 {
        (e, -1)
    } else if s < 120 {
        (e, 3)
    } else if s < 3600 {
        (dec((s / 60) as nat), 0)
    } else if s < 7200 {
        (e, 4)
    } else if s < 86400 {
        (dec((s / 3600) as nat), 1)
    } else if s < 172800 {
        (e, 5)
    } else {
        (dec((s / 86400) as nat), 2)
    };
    if i >= 0 {
        assert(t == p + age_ending(i));
        lemma_age_endings_distinct(p, i, dec(n), 0);
        lemma_age_endings_distinct(p, i, dec(n), 1);
        lemma_age_endings_distinct(p, i, dec(n), 2);
        lemma_age_endings_distinct(p, i, e, 3);
        lemma_age_endings_distinct(p, i, e, 4);
        lemma_age_endings_distinct(p, i, e, 5);
        if i == 0 {
            lemma_age_counts((s / 60) as nat, n, 0);
        } else if i == 1 {
            lemma_age_counts((s / 3600) as nat, n, 1);
        } else if i == 2 {
            lemma_age_counts((s / 86400) as nat, n, 2);
        }
    } else {
        assert(t == "just now"@);
        lemma_age_endings_distinct(dec(n), 0, e, 0);
        lemma_age_endings_distinct(dec(n), 1, e, 1);
        lemma_age_endings_distinct(dec(n), 2, e, 2);
        lemma_age_endings_distinct(e, 3, e, 3);
        lemma_age_endings_distinct(e, 4, e, 4);
        lemma_age_endings_distinct(e, 5, e, 5);
    }
}

/// Renders how long ago a reading was taken, from whole seconds.
pub fn format_age_seconds(total_seconds: i64) -> (r: String)
    ensures
        r@ == reading_age_text(total_seconds as int),
{
    if total_seconds < 0 {
        return String::from_str("just now");
    }
    let days = total_seconds / 86400;
    let hours = total_seconds / 3600;
    let minutes = total_seconds / 60;
    if days > 0 {
        if days == 1 {
            String::from_str("1 day ago")
        } else {
            let mut s = String::new();
            push_dec(&mut s, days as u64);
            push_str(&mut s, " days ago");
            s
        }
    } else if hours > 0 {
        if hours == 1 {
            String::from_str("1 hour ago")
        } else {
            let mut s = String::new();
            push_dec(&mut s, hours as u64);
            push_str(&mut s, " hours ago");
            s
        }
    } else if minutes > 0 {
        if minutes == 1 {
            String::from_str("1 minute ago")
        } else {
            let mut s = String::new();
            push_dec(&mut s, minutes as u64);
            push_str(&mut s, " minutes ago");
            s
        }
    } else {
        String::from_str("just now")
    }
}

/// Renders how long ago a reading was taken, reading the clock.
pub fn format_reading_age(captured_at: OffsetDateTime) -> (r: String)
    ensures
        exists|secs: int| r@ == reading_age_text(secs),
{
    let now = now_utc();
    let secs = whole_seconds_between(&now, &captured_at);
    format_age_seconds(secs)
}

/// Whether a reading of the given age (in whole seconds) is stale: older than
/// twice the measurement interval, or than 30 minutes when no interval is known.
pub open spec fn stale_at(age_secs: int, interval_secs: int) -> bool {
    age_secs >= 0 && age_secs > (if interval_secs > 0 { interval_secs * 2 } else { 1800int })
}

/// Decides staleness from the reading's age in whole seconds.
pub fn is_stale_age(age_secs: i64, interval_secs: u16) -> (r: bool)
    ensures
        r == stale_at(age_secs as int, interval_secs as int),
{
    if age_secs < 0 {
        return false;
    }
    let threshold: i64 = if interval_secs > 0 {
        (interval_secs as i64) * 2
    } else {
        30 * 60
    };
    age_secs > threshold
}

/// Whether a reading is stale, reading the clock; a reading without a
/// timestamp is never stale.
pub fn is_reading_stale(captured_at: Option<OffsetDateTime>, interval_secs: u16) -> (r: bool)
    ensures
        captured_at is None ==> !r,
        r ==> exists|age: int| stale_at(age, interval_secs as int),
{
    match captured_at {
        None => false,
        Some(ts) => {
            let now = now_utc();
            let age = whole_seconds_between(&now, &ts);
            is_stale_age(age, interval_secs)
        },
    }
}

} // verus!
