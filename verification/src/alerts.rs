//! The alert history: a bounded log of alerts, most recent first, and the
//! rule that decides when a CO2 reading is logged as an alert.

use std::collections::VecDeque;
use vstd::prelude::*;
use crate::text::{all_decimal_digits, contains, dec, has_substring, lemma_dec_digits, occurs_at, str_eq};
use crate::tray::{co2_transition_alerts, should_alert_co2};
use crate::types::{
    co2_alert_message, co2_alert_severity, co2_level, is_time_of_day_text, AlertEntry, AlertType,
    Co2Level,
};

verus! {

/// The alert log, newest entry first, holding at most `max_len` entries.
#[derive(Debug)]
pub struct AlertHistory {
    entries: VecDeque<AlertEntry>,
    max_len: usize,
}

/// The log after adding an alert in front and dropping the oldest entries
/// beyond `max_len`.
pub open spec fn logged(entries: Seq<AlertEntry>, alert: AlertEntry, max_len: nat) -> Seq<AlertEntry> {
    let s = seq![alert] + entries;
    if s.len() > max_len {
        s.take(max_len as int)
    } else {
        s
    }
}

/// The CO2 level that an alert message describes, read from its wording.
pub open spec fn level_of_message(msg: Seq<char>) -> Co2Level {
    if has_substring(msg, "dangerous"@) {
        Co2Level::Bad
    } else if has_substring(msg, "poor"@) {
        Co2Level::Poor
    } else if has_substring(msg, "moderate"@) {
        Co2Level::Moderate
    } else {
        Co2Level::Good
    }
}

/// The level of the most recent CO2 alert of a device, if there is one.
pub open spec fn last_co2_level(entries: Seq<AlertEntry>, device: Seq<char>) -> Option<Co2Level>
    decreases entries.len(),
{
    if entries.len() == 0 {
        None
    } else if entries[0].device_name@ == device && entries[0].alert_type == AlertType::Co2 {
        Some(level_of_message(entries[0].message@))
    } else {
        last_co2_level(entries.drop_first(), device)
    }
}

/// What checking a CO2 reading of a device does to the log `o` (giving
/// `n`): when the level change deserves an alert, judged against the
/// device's most recent CO2 alert, the CO2 alert for the device at that
/// reading and level (severity, value and message as `AlertEntry::co2`
/// gives them) is logged; otherwise the log stays as it is.
pub open spec fn co2_alert_checked(o: AlertHistory, n: AlertHistory, device_name: Seq<char>, co2_ppm: u16) -> bool {
    let level = co2_level(co2_ppm as int);
    &&& n.spec_max_len() == o.spec_max_len()
    &&& if co2_transition_alerts(last_co2_level(o.spec_entries(), device_name), level) {
        exists|a: AlertEntry|
            {
                &&& a.device_name@ == device_name
                &&& a.alert_type == AlertType::Co2
                &&& a.severity == co2_alert_severity(level)
                &&& a.value@ == dec(co2_ppm as nat) + " ppm"@
                &&& a.message@ == co2_alert_message(co2_ppm as nat, level)
                &&& is_time_of_day_text(a.time_str@)
                &&& #[trigger] n.spec_entries() == logged(o.spec_entries(), a, o.spec_max_len())
            }
    } else {
        n.spec_entries() == o.spec_entries()
    }
}

impl AlertHistory {
    /// The entries, newest first.
    pub closed spec fn spec_entries(&self) -> Seq<AlertEntry> {
        self.entries@
    }

    /// The most entries kept.
    pub closed spec fn spec_max_len(&self) -> nat {
        self.max_len as nat
    }

    /// The log never holds more than its limit.
    pub open spec fn wf(&self) -> bool {
        self.spec_entries().len() <= self.spec_max_len()
    }

    /// An empty log keeping at most `max_len` entries.
    pub fn new(max_len: usize) -> (r: Self)
        ensures
            r.wf(),
            r.spec_entries() == Seq::<AlertEntry>::empty(),
            r.spec_max_len() == max_len,
    {
        AlertHistory { entries: VecDeque::new(), max_len }
    }

    /// Number of entries.
    pub fn len(&self) -> (r: usize)
        ensures
            r == self.spec_entries().len(),
    {
        self.entries.len()
    }

    /// The most entries kept.
    pub fn max_len(&self) -> (r: usize)
        ensures
            r == self.spec_max_len(),
    {
        self.max_len
    }

    /// The entry at position `i` (0 is the newest).
    pub fn get(&self, i: usize) -> (r: &AlertEntry)
        requires
            i < self.spec_entries().len(),
        ensures
            *r == self.spec_entries()[i as int],
    {
        &self.entries[i]
    }

    /// Removes every entry (the limit stays).
    pub fn clear(&mut self)
        ensures
            final(self).wf(),
            final(self).spec_entries().len() == 0,
            final(self).spec_max_len() == old(self).spec_max_len(),
    {
        self.entries.clear();
    }

    /// Adds an alert as the newest entry, dropping the oldest ones beyond the limit.
    pub fn log_alert(&mut self, alert: AlertEntry)
        requires
            old(self).wf(),
        ensures
            final(self).wf(),
            final(self).spec_max_len() == old(self).spec_max_len(),
            final(self).spec_entries() == logged(
                old(self).spec_entries(),
                alert,
                old(self).spec_max_len(),
            ),
    {
        let ghost expected = logged(self.entries@, alert, self.max_len as nat);
        let ghost front = seq![alert] + self.entries@;
        self.entries.push_front(alert);
        assert(self.entries@ =~= front);
        while self.entries.len() > self.max_len
            invariant
                self.entries@.len() <= front.len(),
                self.entries@.len() >= self.max_len || self.entries@.len() == front.len(),
                self.entries@ =~= front.take(self.entries@.len() as int),
                front == seq![alert] + old(self).entries@,
                self.max_len == old(self).max_len,
            decreases self.entries@.len(),
        {
            let ghost before = self.entries@;
            let _ = self.entries.pop_back();
            assert(self.entries@ =~= front.take(self.entries@.len() as int));
        }
        assert(self.entries@ =~= expected);
    }

    /// Logs a CO2 alert for a device when its reading deserves one, judged
    /// against the device's most recent CO2 alert (or none).
    pub fn check_and_log_co2_alert(&mut self, device_name: &str, co2_ppm: u16)
        requires
            old(self).wf(),
        ensures
            final(self).wf(),
            co2_alert_checked(*old(self), *final(self), device_name@, co2_ppm),
    {
        let level = Co2Level::from_ppm(co2_ppm);
        let last = self.last_co2_alert_level(device_name);
        if should_alert_co2(last, level) {
            let alert = AlertEntry::co2(device_name, co2_ppm, level);
            let ghost a = alert;
            self.log_alert(alert);
            assert(a.device_name@ == device_name@);
        }
    }

    /// The level of the device's most recent CO2 alert, if any.
    pub fn last_co2_alert_level(&self, device_name: &str) -> (r: Option<Co2Level>)
        ensures
            r == last_co2_level(self.spec_entries(), device_name@),
    {
        let n = self.entries.len();
        let mut i: usize = 0;
        assert(self.entries@.skip(0) =~= self.entries@);
        while i < n
            invariant
                n == self.entries@.len(),
                i <= n,
                last_co2_level(self.entries@.skip(i as int), device_name@) == last_co2_level(
                    self.entries@,
                    device_name@,
                ),
            decreases n - i,
        {
            let e = &self.entries[i];
            assert(self.entries@.skip(i as int)[0] == *e);
            assert(self.entries@.skip(i as int).drop_first() =~= self.entries@.skip(i + 1));
            if e.alert_type == AlertType::Co2 && str_eq(e.device_name.as_str(), device_name) {
                return Some(message_level(e.message.as_str()));
            }
            i = i + 1;
        }
        None
    }
}

/// Reads the CO2 level from an alert message's wording.
pub fn message_level(msg: &str) -> (r: Co2Level)
    ensures
        r == level_of_message(msg@),
{
    if contains(msg, "dangerous") {
        Co2Level::Bad
    } else if contains(msg, "poor") {
        Co2Level::Poor
    } else if contains(msg, "moderate") {
        Co2Level::Moderate
    } else {
        Co2Level::Good
    }
}

} // verus!

verus! {

/// Whether the character pair `(a, b)` appears somewhere in `h`.
pub open spec fn has_pair(h: Seq<char>, a: char, b: char) -> bool {
    exists|j: int| 0 <= j && j + 1 < h.len() && #[trigger] h[j] == a && h[j + 1] == b
}

/// A needle that starts with a non-digit pair absent from both literal parts
/// never occurs in `p + d + s` when `d` is a non-empty run of digits.
proof fn lemma_absent_around_digits(p: Seq<char>, d: Seq<char>, s: Seq<char>, needle: Seq<char>)
    requires
        needle.len() >= 2,
        !('0' <= needle[0] && needle[0] <= '9'),
        !('0' <= needle[1] && needle[1] <= '9'),
        d.len() > 0,
        all_decimal_digits(d),
        !has_pair(p, needle[0], needle[1]),
        !has_pair(s, needle[0], needle[1]),
    ensures
        !has_substring(p + d + s, needle),
{
    let h = p + d + s;
    assert forall|i: int| !occurs_at(h, needle, i) by {
        if occurs_at(h, needle, i) {
            assert(h.subrange(i, i + needle.len())[0] == h[i]);
            assert(h.subrange(i, i + needle.len())[1] == h[i + 1]);
            assert(h[i] == needle[0] && h[i + 1] == needle[1]);
            if i + 1 < p.len() {
                assert(p[i] == h[i] && p[i + 1] == h[i + 1]);
                assert(has_pair(p, needle[0], needle[1]));
            } else if i < p.len() + d.len() {
                if i < p.len() {
                    assert(h[i + 1] == d[0]);
                } else {
                    assert(h[i] == d[i - p.len()]);
                }
            } else {
                let k = i - p.len() - d.len();
                assert(s[k] == h[i] && s[k + 1] == h[i + 1]);
                assert(has_pair(s, needle[0], needle[1]));
            }
        }
    }
}

/// A needle lying inside the literal prefix occurs in `p + d + s`.
proof fn lemma_present_in_prefix(p: Seq<char>, d: Seq<char>, s: Seq<char>, needle: Seq<char>, at: int)
    requires
        0 <= at,
        at + needle.len() <= p.len(),
        p.subrange(at, at + needle.len()) == needle,
    ensures
        has_substring(p + d + s, needle),
{
    let h = p + d + s;
    assert(h.subrange(at, at + needle.len()) =~= p.subrange(at, at + needle.len()));
    assert(occurs_at(h, needle, at));
}

/// A digit run between two literal parts occurs in `p + d + s`.
proof fn lemma_present_in_middle(p: Seq<char>, d: Seq<char>, s: Seq<char>)
    ensures
        has_substring(p + d + s, d),
{
    let h = p + d + s;
    assert(h.subrange(p.len() as int, (p.len() + d.len()) as int) =~= d);
    assert(occurs_at(h, d, p.len() as int));
}

/// A CO2 alert's message holds the reading's digits, and holds the word
/// "dangerous" exactly for the bad level, "poor" exactly for the poor level
/// and "moderate" exactly for the moderate level.
pub proof fn lemma_co2_message_words(ppm: nat, level: Co2Level)
    ensures
        has_substring(co2_alert_message(ppm, level), dec(ppm)),
        has_substring(co2_alert_message(ppm, level), "dangerous"@) == (level == Co2Level::Bad),
        has_substring(co2_alert_message(ppm, level), "poor"@) == (level == Co2Level::Poor),
        has_substring(co2_alert_message(ppm, level), "moderate"@) == (level == Co2Level::Moderate),
{
    reveal_strlit("dangerous");
    reveal_strlit("poor");
    reveal_strlit("moderate");
    assert("dangerous"@ =~= seq!['d', 'a', 'n', 'g', 'e', 'r', 'o', 'u', 's']);
    assert("poor"@ =~= seq!['p', 'o', 'o', 'r']);
    assert("moderate"@ =~= seq!['m', 'o', 'd', 'e', 'r', 'a', 't', 'e']);
    lemma_dec_digits(ppm);
    let d = dec(ppm);
    reveal_strlit("CO2 level returned to normal (");
    assert("CO2 level returned to normal ("@ =~= seq!['C', 'O', '2', ' ', 'l', 'e', 'v', 'e', 'l', ' ', 'r', 'e', 't', 'u', 'r', 'n', 'e', 'd', ' ', 't', 'o', ' ', 'n', 'o', 'r', 'm', 'a', 'l', ' ', '(']);
    reveal_strlit(" ppm)");
    assert(" ppm)"@ =~= seq![' ', 'p', 'p', 'm', ')']);
    reveal_strlit("CO2 level moderate (");
    assert("CO2 level moderate ("@ =~= seq!['C', 'O', '2', ' ', 'l', 'e', 'v', 'e', 'l', ' ', 'm', 'o', 'd', 'e', 'r', 'a', 't', 'e', ' ', '(']);
    reveal_strlit(" ppm) - consider ventilating");
    assert(" ppm) - consider ventilating"@ =~= seq![' ', 'p', 'p', 'm', ')', ' ', '-', ' ', 'c', 'o', 'n', 's', 'i', 'd', 'e', 'r', ' ', 'v', 'e', 'n', 't', 'i', 'l', 'a', 't', 'i', 'n', 'g']);
    reveal_strlit("CO2 level poor (");
    assert("CO2 level poor ("@ =~= seq!['C', 'O', '2', ' ', 'l', 'e', 'v', 'e', 'l', ' ', 'p', 'o', 'o', 'r', ' ', '(']);
    reveal_strlit(" ppm) - ventilation recommended");
    assert(" ppm) - ventilation recommended"@ =~= seq![' ', 'p', 'p', 'm', ')', ' ', '-', ' ', 'v', 'e', 'n', 't', 'i', 'l', 'a', 't', 'i', 'o', 'n', ' ', 'r', 'e', 'c', 'o', 'm', 'm', 'e', 'n', 'd', 'e', 'd']);
    reveal_strlit("CO2 level dangerous (");
    assert("CO2 level dangerous ("@ =~= seq!['C', 'O', '2', ' ', 'l', 'e', 'v', 'e', 'l', ' ', 'd', 'a', 'n', 'g', 'e', 'r', 'o', 'u', 's', ' ', '(']);
    reveal_strlit(" ppm) - ventilate immediately");
    assert(" ppm) - ventilate immediately"@ =~= seq![' ', 'p', 'p', 'm', ')', ' ', '-', ' ', 'v', 'e', 'n', 't', 'i', 'l', 'a', 't', 'e', ' ', 'i', 'm', 'm', 'e', 'd', 'i', 'a', 't', 'e', 'l', 'y']);
    match level {
        Co2Level::Good => {
            assert(!has_pair("CO2 level returned to normal ("@, 'd', 'a'));
            assert(!has_pair(" ppm)"@, 'd', 'a'));
            lemma_absent_around_digits("CO2 level returned to normal ("@, d, " ppm)"@, "dangerous"@);
            assert(!has_pair("CO2 level returned to normal ("@, 'p', 'o'));
            assert(!has_pair(" ppm)"@, 'p', 'o'));
            lemma_absent_around_digits("CO2 level returned to normal ("@, d, " ppm)"@, "poor"@);
            assert(!has_pair("CO2 level returned to normal ("@, 'm', 'o'));
            assert(!has_pair(" ppm)"@, 'm', 'o'));
            lemma_absent_around_digits("CO2 level returned to normal ("@, d, " ppm)"@, "moderate"@);
        },
        Co2Level::Moderate => {
            assert(!has_pair("CO2 level moderate ("@, 'd', 'a'));
            assert(!has_pair(" ppm) - consider ventilating"@, 'd', 'a'));
            lemma_absent_around_digits("CO2 level moderate ("@, d, " ppm) - consider ventilating"@, "dangerous"@);
            assert(!has_pair("CO2 level moderate ("@, 'p', 'o'));
            assert(!has_pair(" ppm) - consider ventilating"@, 'p', 'o'));
            lemma_absent_around_digits("CO2 level moderate ("@, d, " ppm) - consider ventilating"@, "poor"@);
            assert("CO2 level moderate ("@.subrange(10, 18) =~= "moderate"@);
            lemma_present_in_prefix("CO2 level moderate ("@, d, " ppm) - consider ventilating"@, "moderate"@, 10);
        },
        Co2Level::Poor => {
            assert(!has_pair("CO2 level poor ("@, 'd', 'a'));
            assert(!has_pair(" ppm) - ventilation recommended"@, 'd', 'a'));
            lemma_absent_around_digits("CO2 level poor ("@, d, " ppm) - ventilation recommended"@, "dangerous"@);
            assert("CO2 level poor ("@.subrange(10, 14) =~= "poor"@);
            lemma_present_in_prefix("CO2 level poor ("@, d, " ppm) - ventilation recommended"@, "poor"@, 10);
            assert(!has_pair("CO2 level poor ("@, 'm', 'o'));
            assert(!has_pair(" ppm) - ventilation recommended"@, 'm', 'o'));
            lemma_absent_around_digits("CO2 level poor ("@, d, " ppm) - ventilation recommended"@, "moderate"@);
        },
        Co2Level::Bad => {
            assert("CO2 level dangerous ("@.subrange(10, 19) =~= "dangerous"@);
            lemma_present_in_prefix("CO2 level dangerous ("@, d, " ppm) - ventilate immediately"@, "dangerous"@, 10);
            assert(!has_pair("CO2 level dangerous ("@, 'p', 'o'));
            assert(!has_pair(" ppm) - ventilate immediately"@, 'p', 'o'));
            lemma_absent_around_digits("CO2 level dangerous ("@, d, " ppm) - ventilate immediately"@, "poor"@);
            assert(!has_pair("CO2 level dangerous ("@, 'm', 'o'));
            assert(!has_pair(" ppm) - ventilate immediately"@, 'm', 'o'));
            lemma_absent_around_digits("CO2 level dangerous ("@, d, " ppm) - ventilate immediately"@, "moderate"@);
        },
    }
    match level {
        Co2Level::Good => lemma_present_in_middle("CO2 level returned to normal ("@, d, " ppm)"@),
        Co2Level::Moderate => lemma_present_in_middle("CO2 level moderate ("@, d, " ppm) - consider ventilating"@),
        Co2Level::Poor => lemma_present_in_middle("CO2 level poor ("@, d, " ppm) - ventilation recommended"@),
        Co2Level::Bad => lemma_present_in_middle("CO2 level dangerous ("@, d, " ppm) - ventilate immediately"@),
    }
}

/// A CO2 alert's message reads back as the level it was written for.
pub proof fn lemma_co2_message_level(ppm: nat, level: Co2Level)
    ensures
        level_of_message(co2_alert_message(ppm, level)) == level,
{
    lemma_co2_message_words(ppm, level);
}


/// Logging a CO2 alert makes it the device's most recent CO2 alert, at the
/// alert's level (when the log keeps at least one entry), so a reading at
/// the same level right after does not log another alert.
pub proof fn lemma_co2_alert_not_repeated(
    entries: Seq<AlertEntry>,
    a: AlertEntry,
    max_len: nat,
    device: Seq<char>,
    ppm: nat,
)
    requires
        max_len > 0,
        a.device_name@ == device,
        a.alert_type == AlertType::Co2,
        a.message@ == co2_alert_message(ppm, co2_level(ppm as int)),
    ensures
        last_co2_level(logged(entries, a, max_len), device) == Some(co2_level(ppm as int)),
        !co2_transition_alerts(last_co2_level(logged(entries, a, max_len), device), co2_level(ppm as int)),
{
    let l = logged(entries, a, max_len);
    assert(l[0] == a);
    lemma_co2_message_level(ppm, co2_level(ppm as int));
    crate::tray::lemma_no_repeated_alert(co2_level(ppm as int));
}

} // verus!
