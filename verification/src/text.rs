//! Text building blocks: decimal rendering of integers, repetition,
//! padding, line splitting, substring search and ASCII case folding.

use vstd::prelude::*;
use vstd::string::StrSliceExecFns;

verus! {

/// Appends one character to a string (`String::push`).
///
/// Trusted: `String::push` appends exactly the given character.
#[verifier::external_body]
pub(crate) fn push_char(s: &mut String, c: char)
    ensures
        final(s)@ == old(s)@.push(c),
{
    s.push(c);
}

/// Appends a string slice (`String::push_str`).
///
/// Trusted: `String::push_str` appends exactly the characters of `t`.
#[verifier::external_body]
pub(crate) fn push_str(s: &mut String, t: &str)
    ensures
        final(s)@ == old(s)@ + t@,
{
    s.push_str(t);
}

/// The character of a decimal digit.
pub open spec fn digit_char(d: nat) -> char {
    if d == 0 { '0' }
    else if d == 1 { '1' }
    else if d == 2 { '2' }
    else if d == 3 { '3' }
    else if d == 4 { '4' }
    else if d == 5 { '5' }
    else if d == 6 { '6' }
    else if d == 7 { '7' }
    else if d == 8 { '8' }
    else { '9' }
}

/// Decimal representation of a natural number, without leading zeros.
pub open spec fn dec(n: nat) -> Seq<char>
    decreases n,
{
    if n < 10 {
        seq![digit_char(n)]
    } else {
        dec(n / 10).push(digit_char(n % 10))
    }
}

/// Decimal representation of an integer, with a leading `-` when negative.
pub open spec fn dec_int(n: int) -> Seq<char> {
    if n < 0 {
        seq!['-'] + dec((-n) as nat)
    } else {
        dec(n as nat)
    }
}

fn digit_to_char(d: u64) -> (c: char)
    requires
        d < 10,
    ensures
        c == digit_char(d as nat),
{
    if d == 0 { '0' }
    else if d == 1 { '1' }
    else if d == 2 { '2' }
    else if d == 3 { '3' }
    else if d == 4 { '4' }
    else if d == 5 { '5' }
    else if d == 6 { '6' }
    else if d == 7 { '7' }
    else if d == 8 { '8' }
    else { '9' }
}

/// Appends the decimal representation of `n` to `s`.
pub fn push_dec(s: &mut String, n: u64)
    ensures
        final(s)@ == old(s)@ + dec(n as nat),
    decreases n,
{
    if n < 10 {
        let c = digit_to_char(n);
        push_char(s, c);
        assert(old(s)@.push(c) =~= old(s)@ + seq![c]);
    } else {
        push_dec(s, n / 10);
        let c = digit_to_char(n % 10);
        let ghost mid = s@;
        push_char(s, c);
        assert(dec(n as nat) == dec((n / 10) as nat).push(digit_char((n % 10) as nat)));
        assert(s@ =~= old(s)@ + dec(n as nat));
    }
}

/// The decimal representation of `n` as a new string.
pub fn u64_to_string(n: u64) -> (r: String)
    ensures
        r@ == dec(n as nat),
{
    let mut s = String::new();
    push_dec(&mut s, n);
    assert(s@ =~= dec(n as nat));
    s
}

} // verus!

verus! {

/// The characters of a string slice, in order.
pub fn to_chars(s: &str) -> (v: Vec<char>)
    ensures
        v@ == s@,
{
    let mut v: Vec<char> = Vec::new();
    for c in it: s.chars()
        invariant
            v@ == it.seq().take(it.index() as int),
            it.seq() == s@,
    {
        v.push(c);
    }
    v
}

} // verus!

verus! {

/// Whether two string slices hold the same characters.
pub fn str_eq(a: &str, b: &str) -> (r: bool)
    ensures
        r == (a@ == b@),
{
    let va = to_chars(a);
    let vb = to_chars(b);
    if va.len() != vb.len() {
        return false;
    }
    let n = va.len();
    let mut i: usize = 0;
    while i < n
        invariant
            n == va@.len(),
            n == vb@.len(),
            va@ == a@,
            vb@ == b@,
            i <= n,
            forall|j: int| 0 <= j < i ==> va@[j] == vb@[j],
        decreases n - i,
    {
        if va[i] != vb[i] {
            assert(va@[i as int] != vb@[i as int]);
            assert(!(va@ =~= vb@));
            return false;
        }
        i = i + 1;
    }
    assert(va@ =~= vb@);
    true
}

/// Whether `needle` occurs in `hay` starting at position `i`.
pub open spec fn occurs_at(hay: Seq<char>, needle: Seq<char>, i: int) -> bool {
    0 <= i && i + needle.len() <= hay.len() && hay.subrange(i, i + needle.len()) == needle
}

/// Whether `needle` occurs in `hay`.
pub open spec fn has_substring(hay: Seq<char>, needle: Seq<char>) -> bool {
    exists|i: int| occurs_at(hay, needle, i)
}

fn matches_at(h: &Vec<char>, n: &Vec<char>, i: usize) -> (r: bool)
    requires
        i + n@.len() <= h@.len(),
    ensures
        r == occurs_at(h@, n@, i as int),
{
    let m = n.len();
    let mut j: usize = 0;
    while j < m
        invariant
            m == n@.len(),
            i + m <= h.len(),
            j <= m,
            forall|k: int| 0 <= k < j ==> h@[i + k] == n@[k],
        decreases m - j,
    {
        if h[i + j] != n[j] {
            assert(h@.subrange(i as int, i + m)[j as int] != n@[j as int]);
            return false;
        }
        j = j + 1;
    }
    assert(h@.subrange(i as int, i + m) =~= n@);
    true
}

/// Whether `needle` occurs in `hay` (`str::contains` with a string pattern).
pub fn contains(hay: &str, needle: &str) -> (r: bool)
    ensures
        r == has_substring(hay@, needle@),
{
    let h = to_chars(hay);
    let n = to_chars(needle);
    if n.len() > h.len() {
        assert forall|i: int| !occurs_at(h@, n@, i) by {}
        return false;
    }
    let mut i: usize = 0;
    while i <= h.len() - n.len()
        invariant
            n@.len() <= h@.len(),
            i <= h@.len(),
            h@ == hay@,
            n@ == needle@,
            forall|k: int| 0 <= k < i ==> !occurs_at(h@, n@, k),
        decreases h.len() - i,
    {
        if matches_at(&h, &n, i) {
            assert(occurs_at(hay@, needle@, i as int));
            return true;
        }
        assert(n@.len() > 0) by {
            if n@.len() == 0 {
                assert(h@.subrange(i as int, i as int) =~= n@);
            }
        }
        i = i + 1;
    }
    assert forall|k: int| !occurs_at(h@, n@, k) by {
        if 0 <= k < i {
        }
    }
    false
}

/// `s` repeated `n` times.
pub open spec fn repeat(s: Seq<char>, n: nat) -> Seq<char>
    decreases n,
{
    if n == 0 {
        seq![]
    } else {
        repeat(s, (n - 1) as nat) + s
    }
}

/// Appends `t` repeated `n` times.
pub fn push_repeat(out: &mut String, t: &str, n: usize)
    ensures
        final(out)@ == old(out)@ + repeat(t@, n as nat),
{
    let mut i: usize = 0;
    while i < n
        invariant
            i <= n,
            out@ == old(out)@ + repeat(t@, i as nat),
        decreases n - i,
    {
        push_str(out, t);
        i = i + 1;
        assert(out@ =~= old(out)@ + repeat(t@, i as nat));
    }
}

/// `t` repeated `n` times as a new string (`str::repeat`).
pub fn repeat_str(t: &str, n: usize) -> (r: String)
    ensures
        r@ == repeat(t@, n as nat),
{
    let mut out = String::new();
    push_repeat(&mut out, t, n);
    assert(out@ =~= repeat(t@, n as nat));
    out
}

/// A line without its trailing carriage return, if it has one.
pub open spec fn strip_cr(line: Seq<char>) -> Seq<char> {
    if line.len() > 0 && line.last() == '\r' {
        line.drop_last()
    } else {
        line
    }
}

/// The lines of `cur + rest`, where `cur` is the start of a line already read:
/// lines end at each `\n` (which, with a `\r` just before it, is dropped),
/// and a final unterminated line is kept only when it is not empty.
pub open spec fn lines_from(cur: Seq<char>, rest: Seq<char>) -> Seq<Seq<char>>
    decreases rest.len(),
{
    if rest.len() == 0 {
        if cur.len() == 0 {
            seq![]
        } else {
            seq![cur]
        }
    } else if rest[0] == '\n' {
        seq![strip_cr(cur)] + lines_from(seq![], rest.drop_first())
    } else {
        lines_from(cur.push(rest[0]), rest.drop_first())
    }
}

/// The lines of a text, as `str::lines` yields them.
pub open spec fn lines(s: Seq<char>) -> Seq<Seq<char>> {
    lines_from(seq![], s)
}

/// The lines of a text (`str::lines`).
pub fn split_lines(s: &str) -> (r: Vec<String>)
    ensures
        r@.map_values(|l: String| l@) == lines(s@),
{
    let cs = to_chars(s);
    let n = cs.len();
    let mut out: Vec<String> = Vec::new();
    let mut cur = String::new();
    let mut i: usize = 0;
    assert(cs@.skip(0) =~= cs@);
    assert(out@.map_values(|l: String| l@) =~= Seq::<Seq<char>>::empty());
    assert(cur@ =~= Seq::<char>::empty());
    assert(Seq::<Seq<char>>::empty() + lines(s@) =~= lines(s@));
    while i < n
        invariant
            n == cs@.len(),
            cs@ == s@,
            i <= n,
            out@.map_values(|l: String| l@) + lines_from(cur@, cs@.skip(i as int)) == lines(s@),
        decreases n - i,
    {
        let c = cs[i];
        let ghost rest = cs@.skip(i as int);
        assert(rest[0] == c);
        assert(rest.drop_first() =~= cs@.skip(i + 1));
        if c == '\n' {
            let ghost old_out = out@.map_values(|l: String| l@);
            let ghost old_cur = cur@;
            let line = strip_trailing_cr(&cur);
            out.push(line);
            cur = String::new();
            assert(out@.map_values(|l: String| l@) =~= old_out.push(strip_cr(old_cur)));
            assert(old_out + seq![strip_cr(old_cur)] =~= old_out.push(strip_cr(old_cur)));
        } else {
            push_char(&mut cur, c);
        }
        i = i + 1;
    }
    assert(cs@.skip(n as int) =~= Seq::<char>::empty());
    let cur_len = cur.as_str().unicode_len();
    if cur_len > 0 {
        let ghost old_out = out@.map_values(|l: String| l@);
        let ghost last = cur@;
        out.push(cur);
        assert(out@.map_values(|l: String| l@) =~= old_out.push(last));
        assert(old_out + seq![last] =~= old_out.push(last));
    } else {
        assert(out@.map_values(|l: String| l@) + Seq::<Seq<char>>::empty() =~= out@.map_values(
            |l: String| l@,
        ));
    }
    out
}

/// Whitespace as Unicode's `White_Space` property defines it (what
/// `char::is_whitespace` and `str::trim` go by): tab to carriage return,
/// space, next line, no-break space, ogham space mark, the spaces from en
/// quad to hair space, line and paragraph separators, narrow no-break space,
/// medium mathematical space and ideographic space.
pub open spec fn is_white_space(c: char) -> bool {
    let n = c as u32;
    ||| 0x9 <= n <= 0xd
    ||| n == 0x20
    ||| n == 0x85
    ||| n == 0xa0
    ||| n == 0x1680
    ||| 0x2000 <= n <= 0x200a
    ||| n == 0x2028
    ||| n == 0x2029
    ||| n == 0x202f
    ||| n == 0x205f
    ||| n == 0x3000
}

/// The text without its leading whitespace.
pub open spec fn trimmed_start(s: Seq<char>) -> Seq<char>
    decreases s.len(),
{
    if s.len() > 0 && is_white_space(s[0]) {
        trimmed_start(s.drop_first())
    } else {
        s
    }
}

/// The text without its trailing whitespace.
pub open spec fn trimmed_end(s: Seq<char>) -> Seq<char>
    decreases s.len(),
{
    if s.len() > 0 && is_white_space(s.last()) {
        trimmed_end(s.drop_last())
    } else {
        s
    }
}

/// The text without its leading and trailing whitespace.
pub open spec fn trimmed(s: Seq<char>) -> Seq<char> {
    trimmed_end(trimmed_start(s))
}

/// Whether a character is whitespace.
fn white_space_char(c: char) -> (r: bool)
    ensures
        r == is_white_space(c),
{
    let n = c as u32;
    (0x9 <= n && n <= 0xd) || n == 0x20 || n == 0x85 || n == 0xa0 || n == 0x1680 || (0x2000 <= n
        && n <= 0x200a) || n == 0x2028 || n == 0x2029 || n == 0x202f || n == 0x205f || n == 0x3000
}

/// The text without its leading and trailing whitespace (`str::trim`).
pub(crate) fn trim_text(s: &str) -> (r: String)
    ensures
        r@ == trimmed(s@),
{
    let cs = to_chars(s);
    let n = cs.len();
    let mut i: usize = 0;
    assert(cs@.subrange(0, n as int) =~= cs@);
    while i < n
        invariant
            n == cs@.len(),
            i <= n,
            trimmed_start(cs@) == trimmed_start(cs@.subrange(i as int, n as int)),
        ensures
            i <= n,
            trimmed_start(cs@) == trimmed_start(cs@.subrange(i as int, n as int)),
            i < n ==> !is_white_space(cs@[i as int]),
        decreases n - i,
    {
        if !white_space_char(cs[i]) {
            break;
        }
        proof {
            let t = cs@.subrange(i as int, n as int);
            assert(t[0] == cs@[i as int]);
            assert(t.drop_first() =~= cs@.subrange(i + 1, n as int));
        }
        i = i + 1;
    }
    proof {
        let t = cs@.subrange(i as int, n as int);
        if i < n {
            assert(t[0] == cs@[i as int]);
        }
        assert(trimmed_start(t) == t);
    }
    let mut j: usize = n;
    while j > i
        invariant
            n == cs@.len(),
            i <= j <= n,
            trimmed_end(cs@.subrange(i as int, n as int)) == trimmed_end(cs@.subrange(i as int, j as int)),
        ensures
            i <= j <= n,
            trimmed_end(cs@.subrange(i as int, n as int)) == trimmed_end(cs@.subrange(i as int, j as int)),
            j > i ==> !is_white_space(cs@[j - 1]),
        decreases j,
    {
        if !white_space_char(cs[j - 1]) {
            break;
        }
        proof {
            let u = cs@.subrange(i as int, j as int);
            assert(u.last() == cs@[j - 1]);
            assert(u.drop_last() =~= cs@.subrange(i as int, j - 1));
        }
        j = j - 1;
    }
    proof {
        let u = cs@.subrange(i as int, j as int);
        if j > i {
            assert(u.last() == cs@[j - 1]);
        }
        assert(trimmed_end(u) == u);
    }
    let mut out = String::new();
    let mut k: usize = i;
    while k < j
        invariant
            n == cs@.len(),
            i <= k <= j <= n,
            out@ == cs@.subrange(i as int, k as int),
        decreases j - k,
    {
        push_char(&mut out, cs[k]);
        assert(out@ =~= cs@.subrange(i as int, k + 1));
        k = k + 1;
    }
    assert(cs@ == s@);
    out
}

/// The pieces of `cur + rest` between occurrences of `sep`, where `cur`
/// is the start of a piece already read.
pub open spec fn split_from(cur: Seq<char>, rest: Seq<char>, sep: char) -> Seq<Seq<char>>
    decreases rest.len(),
{
    if rest.len() == 0 {
        seq![cur]
    } else if rest[0] == sep {
        seq![cur] + split_from(seq![], rest.drop_first(), sep)
    } else {
        split_from(cur.push(rest[0]), rest.drop_first(), sep)
    }
}

/// The pieces of a text between occurrences of `sep`, as `str::split`
/// with a character yields them (always at least one, maybe empty).
pub open spec fn split_on(s: Seq<char>, sep: char) -> Seq<Seq<char>> {
    split_from(seq![], s, sep)
}

/// Splits a text at each occurrence of `sep` (`str::split`).
pub fn split_at_char(s: &str, sep: char) -> (r: Vec<String>)
    ensures
        r@.map_values(|p: String| p@) == split_on(s@, sep),
{
    let cs = to_chars(s);
    let n = cs.len();
    let mut out: Vec<String> = Vec::new();
    let mut cur = String::new();
    let mut i: usize = 0;
    assert(cs@.skip(0) =~= cs@);
    assert(out@.map_values(|p: String| p@) =~= Seq::<Seq<char>>::empty());
    assert(cur@ =~= Seq::<char>::empty());
    assert(Seq::<Seq<char>>::empty() + split_on(s@, sep) =~= split_on(s@, sep));
    while i < n
        invariant
            n == cs@.len(),
            cs@ == s@,
            i <= n,
            out@.map_values(|p: String| p@) + split_from(cur@, cs@.skip(i as int), sep) == split_on(s@, sep),
        decreases n - i,
    {
        let c = cs[i];
        let ghost rest = cs@.skip(i as int);
        assert(rest[0] == c);
        assert(rest.drop_first() =~= cs@.skip(i + 1));
        if c == sep {
            let ghost old_out = out@.map_values(|p: String| p@);
            let ghost old_cur = cur@;
            let mut piece = String::new();
            std::mem::swap(&mut piece, &mut cur);
            out.push(piece);
            assert(cur@ =~= Seq::<char>::empty());
            assert(out@.map_values(|p: String| p@) =~= old_out.push(old_cur));
            assert(old_out + seq![old_cur] =~= old_out.push(old_cur));
            assert(old_out + (seq![old_cur] + split_from(seq![], cs@.skip(i + 1), sep)) =~= old_out.push(
                old_cur,
            ) + split_from(seq![], cs@.skip(i + 1), sep));
        } else {
            push_char(&mut cur, c);
        }
        i = i + 1;
    }
    assert(cs@.skip(n as int) =~= Seq::<char>::empty());
    let ghost old_out = out@.map_values(|p: String| p@);
    let ghost last = cur@;
    out.push(cur);
    assert(out@.map_values(|p: String| p@) =~= old_out.push(last));
    assert(old_out + seq![last] =~= old_out.push(last));
    out
}

fn strip_trailing_cr(line: &String) -> (r: String)
    ensures
        r@ == strip_cr(line@),
{
    let cs = to_chars(line.as_str());
    let n = cs.len();
    let keep = if n > 0 && cs[n - 1] == '\r' { n - 1 } else { n };
    let mut out = String::new();
    let mut i: usize = 0;
    while i < keep
        invariant
            keep <= n,
            n == cs@.len(),
            cs@ == line@,
            i <= keep,
            out@ == cs@.take(i as int),
        decreases keep - i,
    {
        push_char(&mut out, cs[i]);
        i = i + 1;
        assert(out@ =~= cs@.take(i as int));
    }
    assert(out@ =~= strip_cr(line@));
    out
}

/// The parts joined with `sep` between consecutive parts.
pub open spec fn join(parts: Seq<Seq<char>>, sep: Seq<char>) -> Seq<char>
    decreases parts.len(),
{
    if parts.len() == 0 {
        seq![]
    } else if parts.len() == 1 {
        parts[0]
    } else {
        join(parts.drop_last(), sep) + sep + parts.last()
    }
}

/// The strings joined with `sep` (`[String]::join`).
pub fn join_strings(parts: &Vec<String>, sep: &str) -> (r: String)
    ensures
        r@ == join(parts@.map_values(|l: String| l@), sep@),
{
    let ghost views = parts@.map_values(|l: String| l@);
    let mut out = String::new();
    let n = parts.len();
    let mut i: usize = 0;
    while i < n
        invariant
            n == parts@.len(),
            views == parts@.map_values(|l: String| l@),
            i <= n,
            out@ == join(views.take(i as int), sep@),
        decreases n - i,
    {
        if i > 0 {
            push_str(&mut out, sep);
        }
        push_str(&mut out, parts[i].as_str());
        i = i + 1;
        assert(views.take(i as int).drop_last() =~= views.take(i - 1));
        assert(out@ =~= join(views.take(i as int), sep@));
    }
    assert(views.take(n as int) =~= views);
    out
}

} // verus!

verus! {

/// The code of a character after ASCII lowercasing (other characters keep their code).
pub open spec fn ascii_lower_code(c: char) -> u32 {
    if 65 <= (c as u32) && (c as u32) <= 90 {
        ((c as u32) + 32) as u32
    } else {
        c as u32
    }
}

/// Whether `s`, lowercased in ASCII, is exactly `word`.
///
/// For a `word` made of lowercase ASCII letters other than `k` and `i`, and of
/// digits, this agrees with comparing the Unicode lowercase form of `s`: no
/// other character lowercases to one of them.
pub open spec fn lower_eq(s: Seq<char>, word: Seq<char>) -> bool {
    s.len() == word.len() && forall|i: int|
        0 <= i < s.len() ==> #[trigger] ascii_lower_code(s[i]) == word[i] as u32
}

/// Whether `s`, lowercased in ASCII, is exactly `word`.
pub fn eq_lowercase(s: &str, word: &str) -> (r: bool)
    ensures
        r == lower_eq(s@, word@),
{
    let cs = to_chars(s);
    let ws = to_chars(word);
    if cs.len() != ws.len() {
        return false;
    }
    let n = cs.len();
    let mut i: usize = 0;
    while i < n
        invariant
            n == cs@.len(),
            n == ws@.len(),
            cs@ == s@,
            ws@ == word@,
            i <= n,
            forall|j: int| 0 <= j < i ==> #[trigger] ascii_lower_code(cs@[j]) == ws@[j] as u32,
        decreases n - i,
    {
        let code = cs[i] as u32;
        let lower = if 65 <= code && code <= 90 { code + 32 } else { code };
        if lower != ws[i] as u32 {
            assert(ascii_lower_code(s@[i as int]) != word@[i as int] as u32);
            return false;
        }
        i = i + 1;
    }
    true
}

} // verus!

verus! {

/// `s` right-aligned in a field of `width` characters (padded with spaces on the left).
pub open spec fn pad_left(s: Seq<char>, width: nat) -> Seq<char> {
    if s.len() < width {
        repeat(seq![' '], (width - s.len()) as nat) + s
    } else {
        s
    }
}

/// The decimal representation of a signed integer as a new string.
pub fn i64_to_string(n: i64) -> (r: String)
    requires
        n > i64::MIN,
    ensures
        r@ == dec_int(n as int),
{
    let mut s = String::new();
    if n < 0 {
        push_char(&mut s, '-');
        push_dec(&mut s, (0 - n) as u64);
    } else {
        push_dec(&mut s, n as u64);
    }
    assert(s@ =~= dec_int(n as int));
    s
}

/// The number of characters in a string slice.
pub fn char_count(s: &str) -> (r: usize)
    ensures
        r == s@.len(),
{
    to_chars(s).len()
}

/// `s` right-aligned in a field of `width` characters.
pub fn right_align(s: &str, width: usize) -> (r: String)
    ensures
        r@ == pad_left(s@, width as nat),
{
    let n = char_count(s);
    let mut out = String::new();
    if n < width {
        push_repeat(&mut out, " ", width - n);
    }
    push_str(&mut out, s);
    proof {
        reveal_strlit(" ");
        assert(" "@ =~= seq![' ']);
    }
    assert(out@ =~= pad_left(s@, width as nat));
    out
}

} // verus!

verus! {

/// Whether a text has no line feed in it.
pub open spec fn no_line_feed(s: Seq<char>) -> bool {
    forall|i: int| 0 <= i < s.len() ==> #[trigger] s[i] != '\n'
}

/// Reading a line-feed-free `x` and then a line feed closes the current line.
proof fn lemma_lines_from_closed(cur: Seq<char>, x: Seq<char>, rest: Seq<char>)
    requires
        no_line_feed(x),
    ensures
        lines_from(cur, x + seq!['\n'] + rest) == seq![strip_cr(cur + x)] + lines_from(seq![], rest),
    decreases x.len(),
{
    let h = x + seq!['\n'] + rest;
    if x.len() == 0 {
        assert(h[0] == '\n');
        assert(h.drop_first() =~= rest);
        assert(cur + x =~= cur);
    } else {
        assert(h[0] == x[0]);
        assert(h.drop_first() =~= x.drop_first() + seq!['\n'] + rest);
        assert(cur.push(x[0]) + x.drop_first() =~= cur + x);
        lemma_lines_from_closed(cur.push(x[0]), x.drop_first(), rest);
    }
}

/// A line-feed-free `x` at the end of the text finishes the last line.
proof fn lemma_lines_from_open(cur: Seq<char>, x: Seq<char>)
    requires
        no_line_feed(x),
    ensures
        lines_from(cur, x) == (if (cur + x).len() == 0 {
            Seq::<Seq<char>>::empty()
        } else {
            seq![cur + x]
        }),
    decreases x.len(),
{
    if x.len() == 0 {
        assert(cur + x =~= cur);
    } else {
        assert(cur.push(x[0]) + x.drop_first() =~= cur + x);
        lemma_lines_from_open(cur.push(x[0]), x.drop_first());
    }
}

/// Joining two or more parts puts the first part, then the separator, in front.
proof fn lemma_join_front(parts: Seq<Seq<char>>, sep: Seq<char>)
    requires
        parts.len() >= 2,
    ensures
        join(parts, sep) == parts[0] + sep + join(parts.drop_first(), sep),
    decreases parts.len(),
{
    let dl = parts.drop_last();
    let df = parts.drop_first();
    if parts.len() == 2 {
        assert(join(dl, sep) == dl[0]);
        assert(join(df, sep) == df[0]);
        assert(dl[0] == parts[0] && df[0] == parts.last());
    } else {
        lemma_join_front(dl, sep);
        assert(dl.drop_first() =~= df.drop_last());
        assert(df.last() == parts.last());
        assert(join(df, sep) == join(df.drop_last(), sep) + sep + df.last());
        assert(dl[0] == parts[0]);
        assert(join(parts, sep) == join(dl, sep) + sep + parts.last());
        assert(join(parts, sep) =~= parts[0] + sep + join(df, sep));
    }
}

/// The lines of line-feed-free parts joined with line feeds are the parts
/// themselves, each but the last without a trailing carriage return, when the
/// last part is not empty.
pub proof fn lemma_lines_of_join(parts: Seq<Seq<char>>)
    requires
        parts.len() > 0,
        parts.last().len() > 0,
        forall|k: int| 0 <= k < parts.len() ==> no_line_feed(#[trigger] parts[k]),
    ensures
        lines(join(parts, seq!['\n'])) == parts.drop_last().map_values(|l: Seq<char>| strip_cr(l)).push(
            parts.last(),
        ),
    decreases parts.len(),
{
    let want = parts.drop_last().map_values(|l: Seq<char>| strip_cr(l)).push(parts.last());
    if parts.len() == 1 {
        assert(no_line_feed(parts[0]));
        lemma_lines_from_open(seq![], parts[0]);
        assert(seq![] + parts[0] =~= parts[0]);
        assert(lines(join(parts, seq!['\n'])) =~= want);
    } else {
        let tail = parts.drop_first();
        lemma_join_front(parts, seq!['\n']);
        assert(no_line_feed(parts[0]));
        assert forall|k: int| 0 <= k < tail.len() implies no_line_feed(#[trigger] tail[k]) by {
            assert(tail[k] == parts[k + 1]);
        }
        lemma_lines_of_join(tail);
        lemma_lines_from_closed(seq![], parts[0], join(tail, seq!['\n']));
        assert(seq![] + parts[0] =~= parts[0]);
        assert(want =~= seq![strip_cr(parts[0])] + tail.drop_last().map_values(
            |l: Seq<char>| strip_cr(l),
        ).push(tail.last()));
    }
}

/// No line of a text has a line feed in it.
pub proof fn lemma_lines_no_line_feed(cur: Seq<char>, rest: Seq<char>)
    requires
        no_line_feed(cur),
    ensures
        forall|k: int| 0 <= k < lines_from(cur, rest).len() ==> no_line_feed(#[trigger] lines_from(cur, rest)[k]),
    decreases rest.len(),
{
    if rest.len() == 0 {
        if cur.len() > 0 {
            assert(lines_from(cur, rest) =~= seq![cur]);
            assert(lines_from(cur, rest)[0] == cur);
        }
    } else if rest[0] == '\n' {
        assert(no_line_feed(strip_cr(cur))) by {
            if cur.len() > 0 && cur.last() == '\r' {
                assert forall|i: int| 0 <= i < cur.drop_last().len() implies #[trigger] cur.drop_last()[i] != '\n' by {
                    assert(cur.drop_last()[i] == cur[i]);
                }
            }
        }
        lemma_lines_no_line_feed(seq![], rest.drop_first());
        let l = lines_from(cur, rest);
        assert(l == seq![strip_cr(cur)] + lines_from(seq![], rest.drop_first()));
        assert forall|k: int| 0 <= k < l.len() implies no_line_feed(#[trigger] l[k]) by {
            if k > 0 {
                assert(l[k] == lines_from(seq![], rest.drop_first())[k - 1]);
            } else {
                assert(l[0] == strip_cr(cur));
            }
        }
    } else {
        assert forall|i: int| 0 <= i < cur.push(rest[0]).len() implies #[trigger] cur.push(rest[0])[i] != '\n' by {
            if i < cur.len() {
                assert(cur.push(rest[0])[i] == cur[i]);
            }
        }
        lemma_lines_no_line_feed(cur.push(rest[0]), rest.drop_first());
        assert(lines_from(cur, rest) == lines_from(cur.push(rest[0]), rest.drop_first()));
    }
}

/// Whether every character is an ASCII decimal digit.
pub open spec fn all_decimal_digits(d: Seq<char>) -> bool {
    forall|i: int| 0 <= i < d.len() ==> '0' <= #[trigger] d[i] && d[i] <= '9'
}

/// A decimal representation is a non-empty run of digits.
pub proof fn lemma_dec_digits(n: nat)
    ensures
        dec(n).len() > 0,
        all_decimal_digits(dec(n)),
    decreases n,
{
    if n >= 10 {
        lemma_dec_digits(n / 10);
        assert forall|i: int| 0 <= i < dec(n).len() implies '0' <= #[trigger] dec(n)[i] && dec(n)[i] <= '9' by {
            if i < dec(n / 10).len() {
                assert(dec(n)[i] == dec(n / 10)[i]);
            }
        }
    }
}

} // verus!

verus! {

/// Different numbers have different decimal representations.
pub proof fn lemma_dec_injective(n: nat, m: nat)
    requires
        dec(n) == dec(m),
    ensures
        n == m,
    decreases n,
{
    lemma_dec_digits(n / 10);
    lemma_dec_digits(m / 10);
    if n < 10 && m < 10 {
        assert(dec(n)[0] == digit_char(n));
        assert(dec(m)[0] == digit_char(m));
    } else if n < 10 {
        assert(dec(m).len() == dec(m / 10).len() + 1);
    } else if m < 10 {
        assert(dec(n).len() == dec(n / 10).len() + 1);
    } else {
        assert(dec(n).last() == digit_char(n % 10));
        assert(dec(m).last() == digit_char(m % 10));
        assert(dec(n).drop_last() =~= dec(n / 10));
        assert(dec(m).drop_last() =~= dec(m / 10));
        lemma_dec_injective(n / 10, m / 10);
    }
}

/// Two texts that end alike are equal when their beginnings are.
pub proof fn lemma_cancel_suffix(a: Seq<char>, b: Seq<char>, x: Seq<char>)
    requires
        a + x == b + x,
    ensures
        a == b,
{
    assert(a =~= (a + x).subrange(0, a.len() as int));
    assert(b =~= (b + x).subrange(0, b.len() as int));
}

} // verus!
