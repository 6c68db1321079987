//! Names of history export files.

use vstd::prelude::*;
use crate::history::{push_zero_padded, zero_padded};
use crate::text::{push_char, push_str, to_chars};
use crate::timefmt::{day_of, hour_of, minute_of, month_of, now_utc, push_two_digits, second_of, two_digits, year_of};

verus! {

/// Whether a character is alphabetic or numeric in Unicode's sense
/// (`char::is_alphanumeric`).
pub uninterp spec fn alphanumeric(c: char) -> bool;

/// `char::is_alphanumeric`.
///
/// Trusted: the result is named `alphanumeric`; among ASCII characters
/// exactly the letters and the decimal digits are alphabetic or numeric.
#[verifier::external_body]
fn is_alphanumeric(c: char) -> (r: bool)
    ensures
        r == alphanumeric(c),
        (c as u32) < 128 ==> (r <==> ('a' <= c <= 'z' || 'A' <= c <= 'Z' || '0' <= c <= '9')),
{
    c.is_alphanumeric()
}

/// A device name made safe for a file name: every character that is not
/// alphanumeric becomes `_`.
pub open spec fn safe_name(name: Seq<char>) -> Seq<char> {
    name.map_values(|c: char| if alphanumeric(c) { c } else { '_' })
}

/// The file name of a history export: `aranet_<device>_<timestamp>.<format>`
/// with the device name made safe.
pub open spec fn export_name(device_name: Seq<char>, timestamp: Seq<char>, format: Seq<char>) -> Seq<char> {
    "aranet_"@ + safe_name(device_name) + "_"@ + timestamp + "."@ + format
}

/// Builds the file name of a history export.
pub fn export_file_name(device_name: &str, timestamp: &str, format: &str) -> (r: String)
    ensures
        r@ == export_name(device_name@, timestamp@, format@),
{
    let cs = to_chars(device_name);
    let n = cs.len();
    let mut out = String::from_str("aranet_");
    let ghost prefix = out@;
    let mut i: usize = 0;
    while i < n
        invariant
            n == cs@.len(),
            cs@ == device_name@,
            i <= n,
            prefix == "aranet_"@,
            out@ == prefix + safe_name(cs@.take(i as int)),
        decreases n - i,
    {
        let c = cs[i];
        let keep = is_alphanumeric(c);
        if keep {
            push_char(&mut out, c);
        } else {
            push_char(&mut out, '_');
        }
        proof {
            assert(safe_name(cs@.take(i + 1)) =~= safe_name(cs@.take(i as int)).push(
                if alphanumeric(c) {
                    c
                } else {
                    '_'
                },
            ));
        }
        i = i + 1;
    }
    assert(cs@.take(n as int) =~= cs@);
    push_str(&mut out, "_");
    push_str(&mut out, timestamp);
    push_str(&mut out, ".");
    push_str(&mut out, format);
    out
}

} // verus!

verus! {

/// The formats history can be exported in.
#[derive(Debug, Clone, Copy, PartialEq, Eq, Structural)]
pub enum ExportFormat {
    Csv,
    Json,
}

/// The export format a name asks for: `csv` or `json`; anything else is an
/// unknown format, which the export refuses.
pub fn export_format_of(name: &str) -> (r: Option<ExportFormat>)
    ensures
        r == (if name@ == "csv"@ {
            Some(ExportFormat::Csv)
        } else if name@ == "json"@ {
            Some(ExportFormat::Json)
        } else {
            None
        }),
{
    if crate::text::str_eq(name, "csv") {
        Some(ExportFormat::Csv)
    } else if crate::text::str_eq(name, "json") {
        Some(ExportFormat::Json)
    } else {
        None
    }
}

/// The folder exports go to: the configured one, else the downloads
/// folder, else the documents folder, else the current directory.
pub fn export_directory_for(configured: &str, downloads: Option<String>, documents: Option<String>) -> (r: String)
    ensures
        r@ == if configured@.len() > 0 {
            configured@
        } else {
            match downloads {
                Some(d) => d@,
                None => match documents {
                    Some(d) => d@,
                    None => "."@,
                },
            }
        },
{
    if configured.unicode_len() > 0 {
        return String::from_str(configured);
    }
    match downloads {
        Some(d) => d,
        None => match documents {
            Some(d) => d,
            None => String::from_str("."),
        },
    }
}

/// The header line of a CSV export.
pub open spec fn csv_header() -> Seq<char> {
    "timestamp,co2_ppm,temperature_c,humidity_pct,pressure_hpa,radon_bq,radiation_usv"@
}

/// The header line of a CSV export.
pub fn csv_header_line() -> (r: &'static str)
    ensures
        r@ == csv_header(),
{
    "timestamp,co2_ppm,temperature_c,humidity_pct,pressure_hpa,radon_bq,radiation_usv"
}

/// A CSV export line: the timestamp, CO2 (empty when the device does not
/// measure it), temperature, humidity, pressure, radon (empty without) and
/// radiation, comma-separated. The timestamp and the decimal columns come
/// already written (`temperature` with one decimal, `pressure` with one or
/// empty, `radiation` with three or empty).
pub fn csv_line(
    timestamp: &str,
    co2: u16,
    temperature: &str,
    humidity: u8,
    pressure: &str,
    radon: Option<u32>,
    radiation: &str,
) -> (r: String)
    ensures
        r@ == timestamp@ + ","@ + (if co2 > 0 {
            crate::text::dec(co2 as nat)
        } else {
            Seq::<char>::empty()
        }) + ","@ + temperature@ + ","@ + crate::text::dec(humidity as nat) + ","@ + pressure@ + ","@
            + match radon {
            Some(bq) => crate::text::dec(bq as nat),
            None => Seq::<char>::empty(),
        } + ","@ + radiation@,
{
    let mut s = String::from_str(timestamp);
    push_str(&mut s, ",");
    if co2 > 0 {
        crate::text::push_dec(&mut s, co2 as u64);
    }
    push_str(&mut s, ",");
    push_str(&mut s, temperature);
    push_str(&mut s, ",");
    crate::text::push_dec(&mut s, humidity as u64);
    push_str(&mut s, ",");
    push_str(&mut s, pressure);
    push_str(&mut s, ",");
    if let Some(bq) = radon {
        crate::text::push_dec(&mut s, bq as u64);
    }
    push_str(&mut s, ",");
    push_str(&mut s, radiation);
    s
}

} // verus!

verus! {

/// The timestamp in an export's file name, as the format description
/// `[year][month][day]_[hour][minute][second]` writes it: the year with a
/// minus sign when negative and four digits, then two digits for each of
/// month, day, hour, minute and second.
pub open spec fn export_stamp_text(y: int, m: nat, d: nat, h: nat, mi: nat, s: nat) -> Seq<char> {
    let year = if y < 0 {
        seq!['-'] + zero_padded((-y) as nat, 4)
    } else {
        zero_padded(y as nat, 4)
    };
    year + two_digits(m) + two_digits(d) + seq!['_'] + two_digits(h) + two_digits(mi) + two_digits(s)
}

/// Writes the timestamp of an export's file name from the date and time parts.
pub fn format_export_timestamp(y: i32, m: u8, d: u8, h: u8, mi: u8, s: u8) -> (r: String)
    requires
        -9999 <= y <= 9999,
        m < 100,
        d < 100,
        h < 100,
        mi < 100,
        s < 100,
    ensures
        r@ == export_stamp_text(y as int, m as nat, d as nat, h as nat, mi as nat, s as nat),
{
    let mut out = String::new();
    if y < 0 {
        push_char(&mut out, '-');
        push_zero_padded(&mut out, (0 - y) as u64, 4);
    } else {
        push_zero_padded(&mut out, y as u64, 4);
    }
    push_two_digits(&mut out, m);
    push_two_digits(&mut out, d);
    push_char(&mut out, '_');
    push_two_digits(&mut out, h);
    push_two_digits(&mut out, mi);
    push_two_digits(&mut out, s);
    assert(out@ =~= export_stamp_text(y as int, m as nat, d as nat, h as nat, mi as nat, s as nat));
    out
}

/// The timestamp of an export's file name for the current UTC time. Writing
/// these parts with this format description never fails, so the fallback
/// name `export` is never needed.
pub fn export_timestamp() -> (r: String)
    ensures
        exists|y: int, m: nat, d: nat, h: nat, mi: nat, s: nat|
            -9999 <= y <= 9999 && 1 <= m <= 12 && 1 <= d <= 31 && h < 24 && mi < 60 && s < 60 && r@
                == #[trigger] export_stamp_text(y, m, d, h, mi, s),
{
    let now = now_utc();
    let y = year_of(&now);
    let m = month_of(&now);
    let d = day_of(&now);
    let h = hour_of(&now);
    let mi = minute_of(&now);
    let s = second_of(&now);
    format_export_timestamp(y, m, d, h, mi, s)
}

} // verus!
