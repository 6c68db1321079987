//! Terminal colors and text effects, through `owo_colors`.
//!
//! Each function renders a string with one color or effect; its contract
//! states the escape sequences that `owo_colors` writes around the text.

use owo_colors::OwoColorize;
use vstd::prelude::*;
use crate::text::dec;

verus! {

/// The escape sequence `ESC [ code m`.
pub open spec fn sgr(code: Seq<char>) -> Seq<char> {
    seq!['\x1b', '['] + code + seq!['m']
}

/// Text in a foreground color given by its SGR code, reset to the default
/// foreground afterwards.
pub open spec fn fg(code: Seq<char>, s: Seq<char>) -> Seq<char> {
    sgr(code) + s + sgr(seq!['3', '9'])
}

/// Text with an effect given by its SGR code, followed by a full reset.
pub open spec fn effect(code: Seq<char>, s: Seq<char>) -> Seq<char> {
    sgr(code) + s + sgr(seq!['0'])
}

/// Text in a 24-bit foreground color.
pub open spec fn fg_rgb(r: u8, g: u8, b: u8, s: Seq<char>) -> Seq<char> {
    fg(seq!['3', '8', ';', '2', ';'] + dec(r as nat) + seq![';'] + dec(g as nat) + seq![';'] + dec(
        b as nat,
    ), s)
}

/// Green text (`OwoColorize::green`).
///
/// Trusted: `owo_colors` writes `ESC[32m`, the text, then `ESC[39m`.
#[verifier::external_body]
pub(crate) fn green(s: &str) -> (r: String)
    ensures
        r@ == fg(seq!['3', '2'], s@),
{
    format!("{}", s.green())
}

/// Yellow text (`OwoColorize::yellow`).
///
/// Trusted: `owo_colors` writes `ESC[33m`, the text, then `ESC[39m`.
#[verifier::external_body]
pub(crate) fn yellow(s: &str) -> (r: String)
    ensures
        r@ == fg(seq!['3', '3'], s@),
{
    format!("{}", s.yellow())
}

/// Red text (`OwoColorize::red`).
///
/// Trusted: `owo_colors` writes `ESC[31m`, the text, then `ESC[39m`.
#[verifier::external_body]
pub(crate) fn red(s: &str) -> (r: String)
    ensures
        r@ == fg(seq!['3', '1'], s@),
{
    format!("{}", s.red())
}

/// Cyan text (`OwoColorize::cyan`).
///
/// Trusted: `owo_colors` writes `ESC[36m`, the text, then `ESC[39m`.
#[verifier::external_body]
pub(crate) fn cyan(s: &str) -> (r: String)
    ensures
        r@ == fg(seq!['3', '6'], s@),
{
    format!("{}", s.cyan())
}

/// Text in a 24-bit color (`OwoColorize::truecolor`).
///
/// Trusted: `owo_colors` writes `ESC[38;2;R;G;Bm` with the components in
/// decimal, the text, then `ESC[39m`.
#[verifier::external_body]
pub(crate) fn truecolor(s: &str, r: u8, g: u8, b: u8) -> (out: String)
    ensures
        out@ == fg_rgb(r, g, b, s@),
{
    format!("{}", s.truecolor(r, g, b))
}

/// Bold text (`OwoColorize::bold`).
///
/// Trusted: `owo_colors` writes `ESC[1m`, the text, then `ESC[0m`.
#[verifier::external_body]
pub(crate) fn bold(s: &str) -> (r: String)
    ensures
        r@ == effect(seq!['1'], s@),
{
    format!("{}", s.bold())
}

/// Dimmed text (`OwoColorize::dimmed`).
///
/// Trusted: `owo_colors` writes `ESC[2m`, the text, then `ESC[0m`.
#[verifier::external_body]
pub(crate) fn dimmed(s: &str) -> (r: String)
    ensures
        r@ == effect(seq!['2'], s@),
{
    format!("{}", s.dimmed())
}

/// A color used by the text output.
#[derive(Debug, Clone, Copy, PartialEq, Eq, Structural)]
pub enum Paint {
    Green,
    Yellow,
    Orange,
    Red,
    Cyan,
}

/// Text painted in a color; orange is the 24-bit color (255, 165, 0).
pub open spec fn painted(p: Paint, s: Seq<char>) -> Seq<char> {
    match p {
        Paint::Green => fg(seq!['3', '2'], s),
        Paint::Yellow => fg(seq!['3', '3'], s),
        Paint::Orange => fg_rgb(255, 165, 0, s),
        Paint::Red => fg(seq!['3', '1'], s),
        Paint::Cyan => fg(seq!['3', '6'], s),
    }
}

/// Paints text in a color.
pub fn paint(p: Paint, s: &str) -> (r: String)
    ensures
        r@ == painted(p, s@),
{
    match p {
        Paint::Green => green(s),
        Paint::Yellow => yellow(s),
        Paint::Orange => truecolor(s, 255, 165, 0),
        Paint::Red => red(s),
        Paint::Cyan => cyan(s),
    }
}

} // verus!
