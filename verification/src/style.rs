//! Styling of the command-line output: colored values, signal bars,
//! summaries, message boxes, headers and status badges.

pub mod battery;
pub mod co2;
pub mod humidity;
pub mod radon;

use vstd::prelude::*;
use vstd::string::StringSliceAdditionalSpecFns;
use crate::ansi::{bold, cyan, dimmed, effect, fg, paint, painted, Paint, green, yellow};
use crate::cli::StyleMode;
use crate::text::{
    dec, dec_int, i64_to_string, join, join_strings, lemma_dec_digits,
    lemma_lines_no_line_feed, lemma_lines_of_join, lines, no_line_feed, pad_left, push_dec,
    push_repeat, push_str, repeat, repeat_str, right_align, split_lines, strip_cr, u64_to_string,
};

verus! {

/// The color of a CO2 concentration: green below 800, yellow below 1000,
/// orange below 1500, red from 1500 on.
pub open spec fn co2_paint(ppm: int) -> Paint {
    if ppm < 800 {
        Paint::Green
    } else if ppm < 1000 {
        Paint::Yellow
    } else if ppm < 1500 {
        Paint::Orange
    } else {
        Paint::Red
    }
}

/// Formats a CO2 value, colored by its level unless `no_color`.
pub fn format_co2_colored(ppm: u16, no_color: bool) -> (r: String)
    ensures
        r@ == (if no_color { dec(ppm as nat) } else { painted(co2_paint(ppm as int), dec(ppm as nat)) }),
{
    let s = u64_to_string(ppm as u64);
    if no_color {
        return s;
    }
    let p = if ppm < co2::GOOD {
        Paint::Green
    } else if ppm < co2::MODERATE {
        Paint::Yellow
    } else if ppm < co2::POOR {
        Paint::Orange
    } else {
        Paint::Red
    };
    paint(p, s.as_str())
}

/// The color of a radon concentration: green below 74, yellow below 148,
/// red from 148 on.
pub open spec fn radon_paint(bq: int) -> Paint {
    if bq < 74 {
        Paint::Green
    } else if bq < 148 {
        Paint::Yellow
    } else {
        Paint::Red
    }
}

/// Formats a radon value in Bq/m³, colored by EPA level unless `no_color`.
pub fn format_radon_colored(bq: u32, no_color: bool) -> (r: String)
    ensures
        r@ == (if no_color { dec(bq as nat) } else { painted(radon_paint(bq as int), dec(bq as nat)) }),
{
    let s = u64_to_string(bq as u64);
    if no_color {
        return s;
    }
    let p = if bq < radon::GOOD {
        Paint::Green
    } else if bq < radon::MODERATE {
        Paint::Yellow
    } else {
        Paint::Red
    };
    paint(p, s.as_str())
}

/// The color of a battery level: red below 20%, yellow below 40%, green otherwise.
pub open spec fn battery_paint(pct: int) -> Paint {
    if pct < 20 {
        Paint::Red
    } else if pct < 40 {
        Paint::Yellow
    } else {
        Paint::Green
    }
}

/// Formats a battery percentage (`N%`), the number colored by level unless `no_color`.
pub fn format_battery_colored(percent: u8, no_color: bool) -> (r: String)
    ensures
        r@ == (if no_color {
            dec(percent as nat) + seq!['%']
        } else {
            painted(battery_paint(percent as int), dec(percent as nat)) + seq!['%']
        }),
{
    let s = u64_to_string(percent as u64);
    let mut out = if no_color {
        s
    } else {
        let p = if percent < battery::LOW {
            Paint::Red
        } else if percent < battery::MEDIUM {
            Paint::Yellow
        } else {
            Paint::Green
        };
        paint(p, s.as_str())
    };
    crate::text::push_char(&mut out, '%');
    out
}

/// Whether a humidity percentage is outside the 30–70% comfort range.
pub open spec fn humidity_uncomfortable(pct: int) -> bool {
    pct < 30 || pct > 70
}

/// Formats a humidity percentage (`N%`): yellow outside the comfort range,
/// green inside it, plain with `no_color`.
pub fn format_humidity_colored(percent: u8, no_color: bool) -> (r: String)
    ensures
        r@ == (if no_color {
            dec(percent as nat) + seq!['%']
        } else {
            painted(
                if humidity_uncomfortable(percent as int) { Paint::Yellow } else { Paint::Green },
                dec(percent as nat),
            ) + seq!['%']
        }),
{
    let s = u64_to_string(percent as u64);
    let mut out = if no_color {
        s
    } else if percent < humidity::LOW || percent > humidity::HIGH {
        paint(Paint::Yellow, s.as_str())
    } else {
        paint(Paint::Green, s.as_str())
    };
    crate::text::push_char(&mut out, '%');
    out
}

/// Signal strength on a 0–10 scale: RSSI clamped to -100..-30 dBm, scaled
/// by 7 and rounded to the nearest step.
pub open spec fn signal_strength(rssi: int) -> int {
    let x = if rssi + 100 < 0 { 0 } else if rssi + 100 > 70 { 70 } else { rssi + 100 };
    (2 * x + 7) / 14
}

/// The text of a signal bar: filled and empty cells, then the RSSI value
/// right-aligned in three columns.
pub open spec fn signal_bar_text(rssi: Option<i16>, no_color: bool) -> Seq<char> {
    match rssi {
        None => "N/A"@,
        Some(r) => {
            let filled = signal_strength(r as int);
            let bar = repeat("█"@, filled as nat) + repeat("░"@, (10 - filled) as nat);
            let shown = if no_color {
                bar
            } else {
                painted(
                    if filled >= 7 {
                        Paint::Green
                    } else if filled >= 4 {
                        Paint::Yellow
                    } else {
                        Paint::Red
                    },
                    bar,
                )
            };
            shown + seq![' '] + pad_left(dec_int(r as int), 3)
        },
    }
}

/// Formats an RSSI reading as a ten-cell signal bar (-100 dBm is empty,
/// -30 dBm and stronger is full), colored by strength unless `no_color`.
pub fn format_signal_bar(rssi: Option<i16>, no_color: bool) -> (r: String)
    requires
        rssi is Some ==> rssi->0 <= i16::MAX - 100,
    ensures
        r@ == signal_bar_text(rssi, no_color),
{
    let r = match rssi {
        Some(r) => r,
        None => { return String::from_str("N/A"); },
    };
    let shifted: i16 = r + 100;
    let x: i16 = if shifted < 0 { 0 } else if shifted > 70 { 70 } else { shifted };
    let filled: usize = ((2 * x + 7) / 14) as usize;
    assert(0 <= filled <= 10);
    let empty: usize = 10 - filled;
    let mut bar = repeat_str("█", filled);
    push_repeat(&mut bar, "░", empty);
    let mut out = if no_color {
        bar
    } else if filled >= 7 {
        paint(Paint::Green, bar.as_str())
    } else if filled >= 4 {
        paint(Paint::Yellow, bar.as_str())
    } else {
        paint(Paint::Red, bar.as_str())
    };
    crate::text::push_char(&mut out, ' ');
    let num = i64_to_string(r as i64);
    let aligned = right_align(num.as_str(), 3);
    push_str(&mut out, aligned.as_str());
    out
}

/// The air-quality summary word for a CO2 concentration.
pub open spec fn air_quality_text(co2: int) -> Seq<char> {
    if co2 < 800 {
        "Excellent"@
    } else if co2 < 1000 {
        "Good"@
    } else if co2 < 1500 {
        "Moderate"@
    } else {
        "Poor"@
    }
}

/// Air-quality summary text for a CO2 concentration.
pub fn air_quality_summary(co2: u16) -> (r: &'static str)
    ensures
        r@ == air_quality_text(co2 as int),
{
    if co2 < co2::GOOD {
        "Excellent"
    } else if co2 < co2::MODERATE {
        "Good"
    } else if co2 < co2::POOR {
        "Moderate"
    } else {
        "Poor"
    }
}

/// Colored air-quality summary: green below 1000 ppm, yellow below 1500,
/// red from 1500 on.
pub fn air_quality_summary_colored(co2: u16, no_color: bool) -> (r: String)
    ensures
        r@ == (if no_color {
            air_quality_text(co2 as int)
        } else {
            painted(
                if co2 < 1000 {
                    Paint::Green
                } else if co2 < 1500 {
                    Paint::Yellow
                } else {
                    Paint::Red
                },
                air_quality_text(co2 as int),
            )
        }),
{
    let summary = air_quality_summary(co2);
    if no_color {
        return String::from_str(summary);
    }
    if co2 < co2::MODERATE {
        paint(Paint::Green, summary)
    } else if co2 < co2::POOR {
        paint(Paint::Yellow, summary)
    } else {
        paint(Paint::Red, summary)
    }
}

/// The radon risk summary for a concentration in Bq/m³.
pub open spec fn radon_risk_text(bq: int) -> Seq<char> {
    if bq < 74 {
        "Low Risk"@
    } else if bq < 148 {
        "Moderate Risk"@
    } else {
        "High Risk - Action Recommended"@
    }
}

/// Radon risk summary (EPA guidance).
pub fn radon_risk_summary(bq: u32) -> (r: &'static str)
    ensures
        r@ == radon_risk_text(bq as int),
{
    if bq < radon::GOOD {
        "Low Risk"
    } else if bq < radon::MODERATE {
        "Moderate Risk"
    } else {
        "High Risk - Action Recommended"
    }
}

/// A tagged message: the tag, a space and the message, the tag painted unless `no_color`.
pub open spec fn tagged_text(tag: Seq<char>, p: Paint, message: Seq<char>, no_color: bool) -> Seq<
    char,
> {
    (if no_color { tag } else { painted(p, tag) }) + seq![' '] + message
}

fn tagged(tag: &str, p: Paint, message: &str, no_color: bool) -> (r: String)
    ensures
        r@ == tagged_text(tag@, p, message@, no_color),
{
    let mut out = if no_color { String::from_str(tag) } else { paint(p, tag) };
    crate::text::push_char(&mut out, ' ');
    push_str(&mut out, message);
    out
}

/// A success message: `[OK] message`, the tag green unless `no_color`.
pub fn format_success(message: &str, no_color: bool) -> (r: String)
    ensures
        r@ == tagged_text("[OK]"@, Paint::Green, message@, no_color),
{
    tagged("[OK]", Paint::Green, message, no_color)
}

/// An info message: `[--] message`, the tag cyan unless `no_color`.
pub fn format_info(message: &str, no_color: bool) -> (r: String)
    ensures
        r@ == tagged_text("[--]"@, Paint::Cyan, message@, no_color),
{
    tagged("[--]", Paint::Cyan, message, no_color)
}

/// A warning message: `[!!] message`, the tag yellow unless `no_color`.
pub fn format_warning(message: &str, no_color: bool) -> (r: String)
    ensures
        r@ == tagged_text("[!!]"@, Paint::Yellow, message@, no_color),
{
    tagged("[!!]", Paint::Yellow, message, no_color)
}

/// The trend indicator for two integer values: `-` when they differ by less
/// than five, otherwise up or down (ASCII arrows with `no_color`).
pub open spec fn trend_int_text(current: int, previous: int, no_color: bool) -> Seq<char> {
    let diff = current - previous;
    if (if diff < 0 { -diff } else { diff }) < 5 {
        "-"@
    } else if diff > 0 {
        if no_color { "^"@ } else { "↑"@ }
    } else if no_color {
        "v"@
    } else {
        "↓"@
    }
}

/// Trend indicator for integer values.
pub fn trend_indicator_int(current: i32, previous: i32, no_color: bool) -> (r: &'static str)
    requires
        i32::MIN < current - previous <= i32::MAX,
    ensures
        r@ == trend_int_text(current as int, previous as int, no_color),
{
    let diff = current - previous;
    let magnitude = if diff < 0 { 0 - diff } else { diff };
    if magnitude < 5 {
        "-"
    } else if diff > 0 {
        if no_color { "^" } else { "↑" }
    } else if no_color {
        "v"
    } else {
        "↓"
    }
}

/// A section header for a device: `── name ` and a rule of forty `─`, the
/// name cyan and the rule dimmed unless `no_color`.
pub open spec fn device_header_text(name: Seq<char>, no_color: bool) -> Seq<char> {
    let line = repeat("─"@, 40);
    if no_color {
        "── "@ + name + seq![' '] + line
    } else {
        "── "@ + fg(seq!['3', '6'], name) + seq![' '] + effect(seq!['2'], line)
    }
}

/// Formats a section header with a device name.
pub fn format_device_header(name: &str, no_color: bool) -> (r: String)
    ensures
        r@ == device_header_text(name@, no_color),
{
    let line = repeat_str("─", 40);
    let mut out = String::from_str("── ");
    if no_color {
        push_str(&mut out, name);
        crate::text::push_char(&mut out, ' ');
        push_str(&mut out, line.as_str());
    } else {
        let n = cyan(name);
        push_str(&mut out, n.as_str());
        crate::text::push_char(&mut out, ' ');
        let l = dimmed(line.as_str());
        push_str(&mut out, l.as_str());
    }
    out
}

/// A title over a rule of `━` as long as the title's UTF-8 encoding, the
/// title bold and the rule dimmed unless `no_color`.
pub open spec fn title_text(title: Seq<char>, title_bytes: nat, no_color: bool) -> Seq<char> {
    let rule = repeat("━"@, title_bytes);
    if no_color {
        title + seq!['\n'] + rule
    } else {
        effect(seq!['1'], title) + seq!['\n'] + effect(seq!['2'], rule)
    }
}

/// Formats a title header.
pub fn format_title(title: &str, no_color: bool) -> (r: String)
    ensures
        r@ == title_text(title@, title.len() as nat, no_color),
{
    let rule = repeat_str("━", title.len());
    let mut out = if no_color { String::from_str(title) } else { bold(title) };
    crate::text::push_char(&mut out, '\n');
    if no_color {
        push_str(&mut out, rule.as_str());
    } else {
        let d = dimmed(rule.as_str());
        push_str(&mut out, d.as_str());
    }
    assert(out@ =~= title_text(title@, title.len() as nat, no_color));
    out
}

/// A large value and its unit, the value bold and the unit dimmed unless `no_color`.
pub fn format_large_value(value: &str, unit: &str, no_color: bool) -> (r: String)
    ensures
        r@ == (if no_color {
            value@ + seq![' '] + unit@
        } else {
            effect(seq!['1'], value@) + seq![' '] + effect(seq!['2'], unit@)
        }),
{
    let mut out = if no_color { String::from_str(value) } else { bold(value) };
    crate::text::push_char(&mut out, ' ');
    if no_color {
        push_str(&mut out, unit);
    } else {
        let u = dimmed(unit);
        push_str(&mut out, u.as_str());
    }
    out
}

/// The number of filled cells of the air-quality bar for a CO2 concentration.
pub open spec fn air_quality_level(co2: int) -> int {
    if co2 < 400 {
        5
    } else if co2 < 800 {
        4
    } else if co2 < 1000 {
        3
    } else if co2 < 1500 {
        2
    } else {
        1
    }
}

/// The five-cell air-quality bar: green at four or five cells, yellow at
/// three, red below.
pub open spec fn air_quality_bar_text(co2: int, no_color: bool) -> Seq<char> {
    let level = air_quality_level(co2);
    let bar = repeat("█"@, level as nat) + repeat("░"@, (5 - level) as nat);
    if no_color {
        bar
    } else if level >= 4 {
        painted(Paint::Green, bar)
    } else if level >= 3 {
        painted(Paint::Yellow, bar)
    } else {
        painted(Paint::Red, bar)
    }
}

/// Formats the air-quality indicator bar for a CO2 concentration.
pub fn format_air_quality_bar(co2: u16, no_color: bool) -> (r: String)
    ensures
        r@ == air_quality_bar_text(co2 as int, no_color),
{
    let level: usize = if co2 < 400 {
        5
    } else if co2 < 800 {
        4
    } else if co2 < 1000 {
        3
    } else if co2 < 1500 {
        2
    } else {
        1
    };
    let mut bar = repeat_str("█", level);
    push_repeat(&mut bar, "░", 5 - level);
    if no_color {
        bar
    } else if level >= 4 {
        paint(Paint::Green, bar.as_str())
    } else if level >= 3 {
        paint(Paint::Yellow, bar.as_str())
    } else {
        paint(Paint::Red, bar.as_str())
    }
}

/// Overall status of a measurement.
#[derive(Debug, Clone, Copy, PartialEq, Eq, Structural)]
pub enum Status {
    /// No status available.
    Error,
    Green,
    Yellow,
    Red,
}

/// A status badge `[label]`: in rich output with colors, the label is bold
/// and colored by status (dimmed when there is none).
pub open spec fn status_badge_text(label: Seq<char>, status: Status, style: StyleMode, no_color: bool) -> Seq<char> {
    let inner = if style == StyleMode::Plain || no_color {
        label
    } else {
        match status {
            Status::Green => effect(seq!['1'], fg(seq!['3', '2'], label)),
            Status::Yellow => effect(seq!['1'], fg(seq!['3', '3'], label)),
            Status::Red => effect(seq!['1'], fg(seq!['3', '1'], label)),
            Status::Error => effect(seq!['2'], label),
        }
    };
    seq!['['] + inner + seq![']']
}

/// Formats a status badge.
pub fn format_status_badge(label: &str, status: Status, style: StyleMode, no_color: bool) -> (r: String)
    ensures
        r@ == status_badge_text(label@, status, style, no_color),
{
    let inner = if style == StyleMode::Plain || no_color {
        String::from_str(label)
    } else {
        match status {
            Status::Green => { let c = green(label); bold(c.as_str()) },
            Status::Yellow => { let c = yellow(label); bold(c.as_str()) },
            Status::Red => { let c = crate::ansi::red(label); bold(c.as_str()) },
            Status::Error => dimmed(label),
        }
    };
    let mut out = String::new();
    crate::text::push_char(&mut out, '[');
    push_str(&mut out, inner.as_str());
    crate::text::push_char(&mut out, ']');
    assert(out@ =~= status_badge_text(label@, status, style, no_color));
    out
}

} // verus!

verus! {

/// The numbered suggestion lines of an error box, from position `start` on.
pub open spec fn suggestion_lines(suggestions: Seq<Seq<char>>) -> Seq<Seq<char>> {
    Seq::new(
        suggestions.len(),
        |i: int| "│    "@ + dec((i + 1) as nat) + ". "@ + suggestions[i],
    )
}

/// The lines of an error box: a top border carrying the title, the message
/// lines, the numbered suggestions under a heading when there are any, and
/// a bottom border; the box is sixty columns wide, the top border's rule
/// shortened by the title's UTF-8 length.
pub open spec fn error_box_lines(
    title: Seq<char>,
    title_bytes: nat,
    message: Seq<char>,
    suggestions: Seq<Seq<char>>,
) -> Seq<Seq<char>> {
    let top = "┌─ "@ + title + seq![' '] + repeat("─"@, (60 - title_bytes - 4) as nat);
    let bottom = "└"@ + repeat("─"@, 58) + "┘"@;
    let body = lines(message).map_values(|l: Seq<char>| "│  "@ + l);
    let help = if suggestions.len() == 0 {
        Seq::<Seq<char>>::empty()
    } else {
        seq!["│"@, "│  Troubleshooting:"@] + suggestion_lines(suggestions)
    };
    seq![top, "│"@] + body + help + seq!["│"@, bottom]
}

/// Formats an error message in a box, with numbered troubleshooting suggestions.
pub fn format_error_box(title: &str, message: &str, suggestions: &[&str]) -> (r: String)
    requires
        title.len() + 4 <= 60,
    ensures
        r@ == join(
            error_box_lines(
                title@,
                title.len() as nat,
                message@,
                suggestions@.map_values(|s: &str| s@),
            ),
            seq!['\n'],
        ),
{
    let width: usize = 60;
    let mut top = String::from_str("┌─ ");
    push_str(&mut top, title);
    crate::text::push_char(&mut top, ' ');
    push_repeat(&mut top, "─", width - title.len() - 4);
    let mut bottom = String::from_str("└");
    push_repeat(&mut bottom, "─", width - 2);
    push_str(&mut bottom, "┘");

    let ghost sug = suggestions@.map_values(|s: &str| s@);
    let ghost expected = error_box_lines(title@, title.len() as nat, message@, sug);
    let ghost body = lines(message@).map_values(|l: Seq<char>| "│  "@ + l);

    let ghost top_view = top@;
    let mut out: Vec<String> = Vec::new();
    out.push(top);
    out.push(String::from_str("│"));
    let ghost head = out@.map_values(|l: String| l@);

    let msg_lines = split_lines(message);
    let nl = msg_lines.len();
    let mut i: usize = 0;
    while i < nl
        invariant
            nl == msg_lines@.len(),
            msg_lines@.map_values(|l: String| l@) == lines(message@),
            body == lines(message@).map_values(|l: Seq<char>| "│  "@ + l),
            i <= nl,
            out@.map_values(|l: String| l@) == head + body.take(i as int),
        decreases nl - i,
    {
        let mut line = String::from_str("│  ");
        push_str(&mut line, msg_lines[i].as_str());
        let ghost before = out@.map_values(|l: String| l@);
        out.push(line);
        assert(msg_lines@.map_values(|l: String| l@)[i as int] == msg_lines@[i as int]@);
        assert(body.take(i + 1) =~= body.take(i as int).push(body[i as int]));
        assert(out@.map_values(|l: String| l@) =~= before.push("│  "@ + msg_lines@[i as int]@));
        i = i + 1;
    }
    assert(body.take(nl as int) =~= body);

    let ghost after_body = out@.map_values(|l: String| l@);
    let ns = suggestions.len();
    if ns > 0 {
        out.push(String::from_str("│"));
        out.push(String::from_str("│  Troubleshooting:"));
        let ghost start = out@.map_values(|l: String| l@);
        assert(start =~= after_body + seq!["│"@, "│  Troubleshooting:"@]);
        let mut j: usize = 0;
        while j < ns
            invariant
                ns == suggestions@.len(),
                sug == suggestions@.map_values(|s: &str| s@),
                j <= ns,
                out@.map_values(|l: String| l@) == start + suggestion_lines(sug).take(j as int),
            decreases ns - j,
        {
            let mut line = String::from_str("│    ");
            push_dec(&mut line, (j + 1) as u64);
            push_str(&mut line, ". ");
            push_str(&mut line, suggestions[j]);
            let ghost before = out@.map_values(|l: String| l@);
            out.push(line);
            assert(suggestion_lines(sug).take(j + 1) =~= suggestion_lines(sug).take(j as int).push(
                suggestion_lines(sug)[j as int],
            ));
            assert(out@.map_values(|l: String| l@) =~= before.push(
                "│    "@ + dec((j + 1) as nat) + ". "@ + suggestions@[j as int]@,
            ));
            j = j + 1;
        }
        assert(suggestion_lines(sug).take(ns as int) =~= suggestion_lines(sug));
    }
    let ghost help = if sug.len() == 0 {
        Seq::<Seq<char>>::empty()
    } else {
        seq!["│"@, "│  Troubleshooting:"@] + suggestion_lines(sug)
    };
    let ghost after_help = out@.map_values(|l: String| l@);
    assert(after_body == head + body);
    assert(after_help =~= head + body + help);
    assert(head =~= seq![top_view, "│"@]);
    out.push(String::from_str("│"));
    out.push(bottom);
    assert(out@.map_values(|l: String| l@) =~= after_help + seq!["│"@, bottom@]);
    assert(top_view =~= "┌─ "@ + title@ + seq![' '] + repeat("─"@, (60 - title.len() - 4) as nat));
    assert(bottom@ =~= "└"@ + repeat("─"@, 58) + "┘"@);
    assert(out@.map_values(|l: String| l@) =~= expected);
    proof {
        reveal_strlit("\n");
        assert("\n"@ =~= seq!['\n']);
    }
    join_strings(&out, "\n")
}

} // verus!

verus! {

/// A stronger signal never shows fewer filled cells, the bar always has
/// between zero and ten of them, -100 dBm and weaker is empty and -30 dBm
/// and stronger is full.
pub proof fn lemma_signal_strength_monotonic(weaker: int, stronger: int)
    requires
        weaker <= stronger,
    ensures
        signal_strength(weaker) <= signal_strength(stronger),
        0 <= signal_strength(weaker) <= 10,
        weaker <= -100 ==> signal_strength(weaker) == 0,
        stronger >= -30 ==> signal_strength(stronger) == 10,
{
    let xw = if weaker + 100 < 0 { 0 } else if weaker + 100 > 70 { 70 } else { weaker + 100 };
    let xs = if stronger + 100 < 0 { 0 } else if stronger + 100 > 70 { 70 } else { stronger + 100 };
    assert(xw <= xs);
    assert((2 * xw + 7) / 14 <= (2 * xs + 7) / 14) by (nonlinear_arith)
        requires
            0 <= xw <= xs,
    ;
    assert(0 <= (2 * xw + 7) / 14 <= 10) by (nonlinear_arith)
        requires
            0 <= xw <= 70,
    ;
}

/// More CO2 never fills more cells of the air-quality bar, which always
/// has between one and five filled cells.
pub proof fn lemma_air_quality_bar_antitone(lower: int, higher: int)
    requires
        lower <= higher,
    ensures
        air_quality_level(higher) <= air_quality_level(lower),
        1 <= air_quality_level(lower) <= 5,
{
}

} // verus!

verus! {

/// Whether a text has neither a line feed nor a carriage return in it.
pub open spec fn single_line(s: Seq<char>) -> bool {
    forall|i: int| 0 <= i < s.len() ==> #[trigger] s[i] != '\n' && s[i] != '\r'
}

/// The lines of an error box's text, as `str::lines` reads them back.
pub open spec fn error_box_text_lines(
    title: Seq<char>,
    title_bytes: nat,
    message: Seq<char>,
    suggestions: Seq<Seq<char>>,
) -> Seq<Seq<char>> {
    lines(join(error_box_lines(title, title_bytes, message, suggestions), seq!['\n']))
}

/// Whether no part has a line feed in it.
spec fn all_no_line_feed(parts: Seq<Seq<char>>) -> bool {
    forall|k: int| 0 <= k < parts.len() ==> no_line_feed(#[trigger] parts[k])
}

proof fn lemma_no_line_feed_add(a: Seq<char>, b: Seq<char>)
    requires
        no_line_feed(a),
        no_line_feed(b),
    ensures
        no_line_feed(a + b),
{
    assert forall|i: int| 0 <= i < (a + b).len() implies #[trigger] (a + b)[i] != '\n' by {
        if i < a.len() {
            assert((a + b)[i] == a[i]);
        } else {
            assert((a + b)[i] == b[i - a.len()]);
        }
    }
}

proof fn lemma_all_no_line_feed_add(a: Seq<Seq<char>>, b: Seq<Seq<char>>)
    requires
        all_no_line_feed(a),
        all_no_line_feed(b),
    ensures
        all_no_line_feed(a + b),
{
    assert forall|k: int| 0 <= k < (a + b).len() implies no_line_feed(#[trigger] (a + b)[k]) by {
        if k < a.len() {
            assert((a + b)[k] == a[k]);
        } else {
            assert((a + b)[k] == b[k - a.len()]);
        }
    }
}

proof fn lemma_rule_no_line_feed(n: nat)
    ensures
        no_line_feed(repeat(seq!['─'], n)),
        n > 0 ==> repeat(seq!['─'], n).last() == '─',
    decreases n,
{
    if n > 0 {
        lemma_rule_no_line_feed((n - 1) as nat);
        lemma_no_line_feed_add(repeat(seq!['─'], (n - 1) as nat), seq!['─']);
    }
}

/// Read back line by line, an error box whose title and suggestions are
/// single lines has its two borders, the two rows framing the message and
/// one line per message line, plus, when there are suggestions, a heading
/// pair and one line per suggestion. It starts with the titled top border,
/// ends with the bottom border, and shows suggestion `i` as the numbered
/// line `i + 1` right after the heading.
pub proof fn lemma_error_box_text_lines(
    title: Seq<char>,
    title_bytes: nat,
    message: Seq<char>,
    suggestions: Seq<Seq<char>>,
)
    requires
        title_bytes + 4 <= 60,
        single_line(title),
        forall|i: int| 0 <= i < suggestions.len() ==> single_line(#[trigger] suggestions[i]),
    ensures
        error_box_text_lines(title, title_bytes, message, suggestions).len() == 4 + lines(message).len()
            + (if suggestions.len() == 0 {
            0
        } else {
            2 + suggestions.len()
        }),
        error_box_text_lines(title, title_bytes, message, suggestions)[0] == "┌─ "@ + title + seq![' ']
            + repeat("─"@, (60 - title_bytes - 4) as nat),
        error_box_text_lines(title, title_bytes, message, suggestions).last() == "└"@ + repeat("─"@, 58)
            + "┘"@,
        forall|i: int|
            0 <= i < suggestions.len() ==> #[trigger] error_box_text_lines(
                title,
                title_bytes,
                message,
                suggestions,
            )[4 + lines(message).len() + i] == "│    "@ + dec((i + 1) as nat) + ". "@ + suggestions[i],
{
    reveal_strlit("┌─ ");
    reveal_strlit("─");
    reveal_strlit("│");
    reveal_strlit("└");
    reveal_strlit("┘");
    reveal_strlit("│  ");
    reveal_strlit("│  Troubleshooting:");
    reveal_strlit("│    ");
    reveal_strlit(". ");
    assert("─"@ =~= seq!['─']);
    assert("┌─ "@ =~= seq!['┌', '─', ' ']);
    assert("│"@ =~= seq!['│']);
    assert("└"@ =~= seq!['└']);
    assert("┘"@ =~= seq!['┘']);
    assert("│  "@ =~= seq!['│', ' ', ' ']);
    assert("│    "@ =~= seq!['│', ' ', ' ', ' ', ' ']);
    assert(". "@ =~= seq!['.', ' ']);
    assert("│  Troubleshooting:"@ =~= seq![
        '│', ' ', ' ', 'T', 'r', 'o', 'u', 'b', 'l', 'e', 's', 'h', 'o', 'o', 't', 'i', 'n', 'g', ':'
    ]);
    let k = (60 - title_bytes - 4) as nat;
    let top = "┌─ "@ + title + seq![' '] + repeat("─"@, k);
    let bottom = "└"@ + repeat("─"@, 58) + "┘"@;
    let ml = lines(message);
    let m = ml.len();
    let body = ml.map_values(|l: Seq<char>| "│  "@ + l);
    let sl = suggestion_lines(suggestions);
    let help = if suggestions.len() == 0 {
        Seq::<Seq<char>>::empty()
    } else {
        seq!["│"@, "│  Troubleshooting:"@] + sl
    };
    let b = error_box_lines(title, title_bytes, message, suggestions);
    assert(b == seq![top, "│"@] + body + help + seq!["│"@, bottom]);

    // every part is free of line feeds
    lemma_rule_no_line_feed(k);
    lemma_rule_no_line_feed(58);
    assert(no_line_feed(title));
    lemma_no_line_feed_add("┌─ "@, title);
    lemma_no_line_feed_add("┌─ "@ + title, seq![' ']);
    lemma_no_line_feed_add("┌─ "@ + title + seq![' '], repeat("─"@, k));
    lemma_no_line_feed_add("└"@, repeat("─"@, 58));
    lemma_no_line_feed_add("└"@ + repeat("─"@, 58), "┘"@);
    assert(all_no_line_feed(seq![top, "│"@]));
    assert(all_no_line_feed(seq!["│"@, bottom]));
    lemma_lines_no_line_feed(seq![], message);
    assert forall|j: int| 0 <= j < body.len() implies no_line_feed(#[trigger] body[j]) by {
        assert(no_line_feed(ml[j]));
        lemma_no_line_feed_add("│  "@, ml[j]);
    }
    assert forall|j: int| 0 <= j < sl.len() implies no_line_feed(#[trigger] sl[j]) by {
        lemma_dec_digits((j + 1) as nat);
        let d = dec((j + 1) as nat);
        assert(no_line_feed(d));
        assert(single_line(suggestions[j]));
        assert(no_line_feed(suggestions[j]));
        lemma_no_line_feed_add("│    "@, d);
        lemma_no_line_feed_add("│    "@ + d, ". "@);
        lemma_no_line_feed_add("│    "@ + d + ". "@, suggestions[j]);
    }
    assert(all_no_line_feed(help)) by {
        if suggestions.len() > 0 {
            assert(all_no_line_feed(seq!["│"@, "│  Troubleshooting:"@]));
            lemma_all_no_line_feed_add(seq!["│"@, "│  Troubleshooting:"@], sl);
        }
    }
    lemma_all_no_line_feed_add(seq![top, "│"@], body);
    lemma_all_no_line_feed_add(seq![top, "│"@] + body, help);
    lemma_all_no_line_feed_add(seq![top, "│"@] + body + help, seq!["│"@, bottom]);
    assert(b.last() == bottom);
    lemma_lines_of_join(b);
    let ls = error_box_text_lines(title, title_bytes, message, suggestions);
    assert(ls == b.drop_last().map_values(|l: Seq<char>| strip_cr(l)).push(b.last()));

    // the top border does not end in a carriage return
    assert(b[0] == top);
    if k > 0 {
        assert(top.last() == '─');
    } else {
        assert(repeat("─"@, k) =~= Seq::<char>::empty());
        assert(top.last() == ' ');
    }
    assert(ls[0] == strip_cr(b[0]));

    // the numbered suggestion lines
    assert forall|i: int| 0 <= i < suggestions.len() implies #[trigger] ls[4 + m + i] == "│    "@ + dec(
        (i + 1) as nat,
    ) + ". "@ + suggestions[i] by {
        let line = "│    "@ + dec((i + 1) as nat) + ". "@ + suggestions[i];
        assert(b[4 + m + i] == help[2 + i]);
        assert(help[2 + i] == sl[i]);
        assert(sl[i] == line);
        if suggestions[i].len() > 0 {
            assert(single_line(suggestions[i]));
            assert(line.last() == suggestions[i].last());
        } else {
            assert(line.last() == ' ');
        }
        assert(ls[4 + m + i] == strip_cr(b[4 + m + i]));
    }
}

} // verus!

verus! {

/// `tabled::Table`, carried through the library as an opaque value.
#[verifier::external_type_specification]
#[verifier::external_body]
pub struct ExTable(tabled::Table);

/// The border style of a table.
#[derive(Debug, Clone, Copy, PartialEq, Eq, Structural)]
pub enum TableBorders {
    /// Rounded box-drawing borders.
    Rounded,
    /// No borders.
    Blank,
}

/// Tables have rounded borders in rich and minimal output, none in plain output.
pub fn table_borders(style: StyleMode) -> (r: TableBorders)
    ensures
        r == (if style == StyleMode::Plain {
            TableBorders::Blank
        } else {
            TableBorders::Rounded
        }),
{
    match style {
        StyleMode::Rich | StyleMode::Minimal => TableBorders::Rounded,
        StyleMode::Plain => TableBorders::Blank,
    }
}

/// Gives a table rounded borders (`Table::with(Style::rounded())`).
///
/// Trusted: nothing is stated of the table, which Verus sees as opaque.
#[verifier::external_body]
fn with_rounded_borders(table: &mut tabled::Table) {
    table.with(tabled::settings::Style::rounded());
}

/// Takes a table's borders away (`Table::with(Style::blank())`).
///
/// Trusted: nothing is stated of the table, which Verus sees as opaque.
#[verifier::external_body]
fn with_blank_borders(table: &mut tabled::Table) {
    table.with(tabled::settings::Style::blank());
}

/// Applies the border style that the output style asks for (`table_borders`).
pub fn apply_table_style(table: &mut tabled::Table, style: StyleMode) {
    match table_borders(style) {
        TableBorders::Rounded => with_rounded_borders(table),
        TableBorders::Blank => with_blank_borders(table),
    }
}

} // verus!
