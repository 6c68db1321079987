//! Editing the command-line configuration: reading, setting and unsetting
//! its keys, with the validation the `config` command applies.

use vstd::prelude::*;
use crate::cli::{bool_word, parse_bool};
use crate::text::{dec, eq_lowercase, lower_eq, push_dec, push_str, to_chars};

verus! {

/// Configuration keys that the `config` command edits.
#[derive(Debug, Clone, Copy, PartialEq, Eq, Structural)]
pub enum ConfigKey {
    Device,
    Format,
    Timeout,
    NoColor,
    Fahrenheit,
}

/// The configuration values that the `config` command edits.
#[derive(Debug, Clone)]
pub struct ConfigValues {
    /// Default device address.
    pub device: Option<String>,
    /// Default output format (`text`, `json` or `csv`).
    pub format: Option<String>,
    /// Default timeout in seconds.
    pub timeout: Option<u64>,
    /// Disable colored output.
    pub no_color: bool,
    /// Show temperatures in Fahrenheit.
    pub fahrenheit: bool,
}

/// Whether a character is an ASCII decimal digit.
pub open spec fn is_digit(c: char) -> bool {
    '0' <= c && c <= '9'
}

/// Whether every character is an ASCII decimal digit.
pub open spec fn all_digits(d: Seq<char>) -> bool {
    forall|i: int| 0 <= i < d.len() ==> #[trigger] is_digit(d[i])
}

/// The digits of an unsigned number's text: without a leading `+`, if any.
pub open spec fn unsigned_digits(s: Seq<char>) -> Seq<char> {
    if s.len() > 0 && s[0] == '+' {
        s.drop_first()
    } else {
        s
    }
}

/// The value of a string of decimal digits.
pub open spec fn digits_value(s: Seq<char>) -> nat
    decreases s.len(),
{
    if s.len() == 0 {
        0
    } else {
        digits_value(s.drop_last()) * 10 + ((s.last() as int) - 48) as nat
    }
}

/// The unsigned integer a text denotes as `u64::from_str` reads it: an
/// optional `+`, then one or more decimal digits, with a value that fits.
pub open spec fn u64_text_value(s: Seq<char>) -> Option<u64> {
    let d = unsigned_digits(s);
    if d.len() > 0 && all_digits(d) && digits_value(d) <= u64::MAX {
        Some(digits_value(d) as u64)
    } else {
        None
    }
}

/// Parses an unsigned decimal integer (`u64::from_str`).
pub fn parse_u64(s: &str) -> (r: Option<u64>)
    ensures
        r == u64_text_value(s@),
{
    let cs = to_chars(s);
    let start: usize = if cs.len() > 0 && cs[0] == '+' { 1 } else { 0 };
    let ghost d = unsigned_digits(s@);
    assert(d =~= cs@.skip(start as int));
    if start >= cs.len() {
        return None;
    }
    let n = cs.len();
    let mut acc: u64 = 0;
    let mut overflow = false;
    let mut i: usize = start;
    assert(d.take(0) =~= Seq::<char>::empty());
    while i < n
        invariant
            n == cs@.len(),
            cs@ == s@,
            d == unsigned_digits(s@),
            start <= i <= n,
            d =~= cs@.skip(start as int),
            forall|k: int| 0 <= k < i - start ==> #[trigger] is_digit(d[k]),
            !overflow ==> acc as nat == digits_value(d.take(i - start)),
            overflow ==> digits_value(d.take(i - start)) > u64::MAX,
        decreases n - i,
    {
        let c = cs[i];
        if !('0' <= c && c <= '9') {
            assert(!is_digit(d[i - start]));
            assert(!all_digits(d));
            return None;
        }
        let ghost prev = d.take(i - start);
        assert(d.take(i - start + 1).drop_last() =~= prev);
        assert(d.take(i - start + 1).last() == c);
        let digit = (c as u32 - 48) as u64;
        if !overflow {
            if acc > (u64::MAX - digit) / 10 {
                overflow = true;
                assert(digits_value(d.take(i - start + 1)) > u64::MAX) by (nonlinear_arith)
                    requires
                        digits_value(d.take(i - start + 1)) == acc * 10 + digit,
                        acc > (u64::MAX - digit) / 10,
                        digit < 10,
                ;
            } else {
                assert(acc * 10 + digit <= u64::MAX) by (nonlinear_arith)
                    requires
                        acc <= (u64::MAX - digit) / 10,
                        digit < 10,
                ;
                acc = acc * 10 + digit;
            }
        } else {
            assert(digits_value(d.take(i - start + 1)) >= digits_value(prev)) by (nonlinear_arith)
                requires
                    digits_value(d.take(i - start + 1)) == digits_value(prev) * 10 + digit,
            ;
        }
        i = i + 1;
    }
    assert(d.take(n - start) =~= d);
    if overflow {
        None
    } else {
        Some(acc)
    }
}

} // verus!

verus! {

/// The text `config get` prints for a key.
pub open spec fn config_value_text(c: ConfigValues, key: ConfigKey) -> Seq<char> {
    match key {
        ConfigKey::Device => match c.device {
            Some(d) => d@,
            None => seq![],
        },
        ConfigKey::Format => match c.format {
            Some(f) => f@,
            None => "text"@,
        },
        ConfigKey::Timeout => match c.timeout {
            Some(t) => dec(t as nat),
            None => seq![],
        },
        ConfigKey::NoColor => if c.no_color { "true"@ } else { "false"@ },
        ConfigKey::Fahrenheit => if c.fahrenheit { "true"@ } else { "false"@ },
    }
}

/// The output format word a value stands for when setting `format`, if any.
pub open spec fn format_setting_word(v: Seq<char>) -> Option<Seq<char>> {
    if lower_eq(v, "text"@) {
        Some("text"@)
    } else if lower_eq(v, "json"@) {
        Some("json"@)
    } else if lower_eq(v, "csv"@) {
        Some("csv"@)
    } else {
        None
    }
}

/// The configuration after `config set key value`, or the error message when
/// the value is refused.
pub open spec fn config_after_set(c: ConfigValues, key: ConfigKey, v: Seq<char>) -> Result<
    ConfigValues,
    Seq<char>,
> {
    match key {
        ConfigKey::Device => Ok(c),
        ConfigKey::Format => match format_setting_word(v) {
            Some(_) => Ok(c),
            None => Err("Invalid format: "@ + v + ". Valid values: text, json, csv"@),
        },
        ConfigKey::Timeout => match crate::config::u64_text_value(v) {
            Some(t) => Ok(ConfigValues { timeout: Some(t), ..c }),
            None => Err("Invalid timeout value: "@ + v + ". Must be a positive integer (seconds)."@),
        },
        ConfigKey::NoColor => match bool_word(v) {
            Some(b) => Ok(ConfigValues { no_color: b, ..c }),
            None => Err("Invalid no_color value: "@ + v + ". Use 'true' or 'false'."@),
        },
        ConfigKey::Fahrenheit => match bool_word(v) {
            Some(b) => Ok(ConfigValues { fahrenheit: b, ..c }),
            None => Err("Invalid fahrenheit value: "@ + v + ". Use 'true' or 'false'."@),
        },
    }
}

impl ConfigValues {
    /// The text that `config get` prints for `key`.
    pub fn get_text(&self, key: ConfigKey) -> (r: String)
        ensures
            r@ == config_value_text(*self, key),
    {
        match key {
            ConfigKey::Device => match &self.device {
                Some(d) => String::from_str(d.as_str()),
                None => String::new(),
            },
            ConfigKey::Format => match &self.format {
                Some(f) => String::from_str(f.as_str()),
                None => String::from_str("text"),
            },
            ConfigKey::Timeout => match self.timeout {
                Some(t) => {
                    let mut s = String::new();
                    push_dec(&mut s, t);
                    s
                },
                None => String::new(),
            },
            ConfigKey::NoColor => if self.no_color {
                String::from_str("true")
            } else {
                String::from_str("false")
            },
            ConfigKey::Fahrenheit => if self.fahrenheit {
                String::from_str("true")
            } else {
                String::from_str("false")
            },
        }
    }

    /// Sets `key` to `value` as `config set` does, validating the value.
    /// On error the configuration is left unchanged.
    pub fn set_value(&mut self, key: ConfigKey, value: &str) -> (r: Result<(), String>)
        ensures
            match config_after_set(*old(self), key, value@) {
                Ok(_) => r is Ok,
                Err(msg) => r matches Err(m) && m@ == msg && *final(self) == *old(self),
            },
            r is Ok ==> match key {
                ConfigKey::Device => final(self).device matches Some(d) && d@ == value@
                    && final(self).format == old(self).format && final(self).timeout == old(
                    self,
                ).timeout && final(self).no_color == old(self).no_color && final(self).fahrenheit
                    == old(self).fahrenheit,
                ConfigKey::Format => final(self).format matches Some(f) && Some(f@)
                    == format_setting_word(value@) && final(self).device == old(self).device
                    && final(self).timeout == old(self).timeout && final(self).no_color == old(
                    self,
                ).no_color && final(self).fahrenheit == old(self).fahrenheit,
                _ => config_after_set(*old(self), key, value@) == Ok::<ConfigValues, Seq<char>>(
                    *final(self),
                ),
            },
    {
        match key {
            ConfigKey::Device => {
                self.device = Some(String::from_str(value));
                Ok(())
            },
            ConfigKey::Format => {
                if eq_lowercase(value, "text") {
                    self.format = Some(String::from_str("text"));
                    Ok(())
                } else if eq_lowercase(value, "json") {
                    self.format = Some(String::from_str("json"));
                    Ok(())
                } else if eq_lowercase(value, "csv") {
                    self.format = Some(String::from_str("csv"));
                    Ok(())
                } else {
                    let mut m = String::from_str("Invalid format: ");
                    push_str(&mut m, value);
                    push_str(&mut m, ". Valid values: text, json, csv");
                    Err(m)
                }
            },
            ConfigKey::Timeout => match parse_u64(value) {
                Some(t) => {
                    self.timeout = Some(t);
                    Ok(())
                },
                None => {
                    let mut m = String::from_str("Invalid timeout value: ");
                    push_str(&mut m, value);
                    push_str(&mut m, ". Must be a positive integer (seconds).");
                    Err(m)
                },
            },
            ConfigKey::NoColor => match parse_bool(value) {
                Ok(b) => {
                    self.no_color = b;
                    Ok(())
                },
                Err(()) => {
                    let mut m = String::from_str("Invalid no_color value: ");
                    push_str(&mut m, value);
                    push_str(&mut m, ". Use 'true' or 'false'.");
                    Err(m)
                },
            },
            ConfigKey::Fahrenheit => match parse_bool(value) {
                Ok(b) => {
                    self.fahrenheit = b;
                    Ok(())
                },
                Err(()) => {
                    let mut m = String::from_str("Invalid fahrenheit value: ");
                    push_str(&mut m, value);
                    push_str(&mut m, ". Use 'true' or 'false'.");
                    Err(m)
                },
            },
        }
    }

    /// Clears `key` as `config unset` does: options become absent and flags false.
    pub fn unset(&mut self, key: ConfigKey)
        ensures
            *final(self) == (match key {
                ConfigKey::Device => ConfigValues { device: None, ..*old(self) },
                ConfigKey::Format => ConfigValues { format: None, ..*old(self) },
                ConfigKey::Timeout => ConfigValues { timeout: None, ..*old(self) },
                ConfigKey::NoColor => ConfigValues { no_color: false, ..*old(self) },
                ConfigKey::Fahrenheit => ConfigValues { fahrenheit: false, ..*old(self) },
            }),
    {
        match key {
            ConfigKey::Device => self.device = None,
            ConfigKey::Format => self.format = None,
            ConfigKey::Timeout => self.timeout = None,
            ConfigKey::NoColor => self.no_color = false,
            ConfigKey::Fahrenheit => self.fahrenheit = false,
        }
    }
}

} // verus!
