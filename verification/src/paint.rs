//! The paint of each style: one character in, the text that shows it in that
//! style on a terminal out.
//!
//! The escape sequences are made by the `colored` crate, which also decides,
//! from the environment and from its own switch, whether to colour at all.
//! What is said here of its results is taken on trust, and of a program that
//! leaves that switch alone while a character is being painted.

use vstd::prelude::*;
use colored::Colorize;
use crate::catalog::StyleKind;

verus! {

/// Red, green and blue of the background that shows a highlighted character.
pub const HIGHLIGHT_RED: u8 = 135;

pub const HIGHLIGHT_GREEN: u8 = 28;

pub const HIGHLIGHT_BLUE: u8 = 167;

/// The decimal digits of a number, most significant first.
pub open spec fn decimal(n: nat) -> Seq<char>
    decreases n,
{
    let last = seq!['0', '1', '2', '3', '4', '5', '6', '7', '8', '9'][(n % 10) as int];
    if n < 10 {
        seq![last]
    } else {
        decimal(n / 10).push(last)
    }
}

/// The sequence that ends a painted piece.
pub open spec fn reset_sequence() -> Seq<char> {
    seq!['\u{1b}', '[', '0', 'm']
}

/// A character between the sequence that selects `code` and the one that
/// resets it.
pub open spec fn escaped(code: Seq<char>, c: char) -> Seq<char> {
    seq!['\u{1b}', '['] + code + seq!['m', c] + reset_sequence()
}

/// The code that selects a background by its red, green and blue.
pub open spec fn truecolor_background(r: u8, g: u8, b: u8) -> Seq<char> {
    seq!['4', '8', ';', '2', ';'] + decimal(r as nat) + seq![';'] + decimal(g as nat) + seq![';']
        + decimal(b as nat)
}

/// Whether `code` selects one of the sixteen basic background colours.
pub open spec fn is_basic_background(code: Seq<char>) -> bool {
    exists|n: nat| (40 <= n <= 47 || 100 <= n <= 107) && code == #[trigger] decimal(n)
}

/// Whether `code` selects a background for the given red, green and blue: the
/// colour itself, or a basic colour in its place.
pub open spec fn is_background_code(code: Seq<char>, r: u8, g: u8, b: u8) -> bool {
    code == truecolor_background(r, g, b) || is_basic_background(code)
}

/// The code that selects the background of a highlighted character.
pub open spec fn highlight_code() -> Seq<char> {
    seq!['4', '8', ';', '2', ';', '1', '3', '5', ';', '2', '8', ';', '1', '6', '7']
}

/// Whether `code` is a code that the paint of `kind` may select.  Each style
/// has one, but for the highlight, which falls back on a basic background
/// where the terminal is not known to show its own.
pub open spec fn selects(kind: StyleKind, code: Seq<char>) -> bool {
    match kind {
        StyleKind::Normal => false,
        StyleKind::Number => code == seq!['3', '6'],
        StyleKind::SingleQuoteString => code == seq!['3', '3'],
        StyleKind::DoubleQuoteString => code == seq!['9', '1'],
        StyleKind::Strikethrough => code == seq!['9'],
        StyleKind::Highlight => code == highlight_code() || is_basic_background(code),
        StyleKind::Italic => code == seq!['3'],
        StyleKind::Bold => code == seq!['1'],
    }
}

/// Whether `piece` shows `c` in the paint of `kind`: either `c` between the
/// escape sequences of that paint, or, where colouring is switched off, `c`
/// alone.  `Normal` has no paint, so only `c` alone shows it.
pub open spec fn is_painted(piece: Seq<char>, c: char, kind: StyleKind) -> bool {
    piece == seq![c] || exists|code: Seq<char>|
        selects(kind, code) && piece == #[trigger] escaped(code, c)
}

/// `Colorize::cyan` of `colored`, formatted through `Display`.  The result is
/// the character between `ESC[36m` and `ESC[0m`, or the character alone where
/// `colored` finds colouring switched off.
#[verifier::external_body]
fn cyan(c: char) -> (out: String)
    ensures
        out@ == seq![c] || out@ == escaped(seq!['3', '6'], c),
{
    c.to_string().cyan().to_string()
}

/// `Colorize::yellow` of `colored`, formatted through `Display`.  The result
/// is the character between `ESC[33m` and `ESC[0m`, or the character alone
/// where `colored` finds colouring switched off.
#[verifier::external_body]
fn yellow(c: char) -> (out: String)
    ensures
        out@ == seq![c] || out@ == escaped(seq!['3', '3'], c),
{
    c.to_string().yellow().to_string()
}

/// `Colorize::bright_red` of `colored`, formatted through `Display`.  The
/// result is the character between `ESC[91m` and `ESC[0m`, or the character
/// alone where `colored` finds colouring switched off.
#[verifier::external_body]
fn bright_red(c: char) -> (out: String)
    ensures
        out@ == seq![c] || out@ == escaped(seq!['9', '1'], c),
{
    c.to_string().bright_red().to_string()
}

/// `Colorize::strikethrough` of `colored`, formatted through `Display`.  The
/// result is the character between `ESC[9m` and `ESC[0m`, or the character
/// alone where `colored` finds colouring switched off.
#[verifier::external_body]
fn strikethrough(c: char) -> (out: String)
    ensures
        out@ == seq![c] || out@ == escaped(seq!['9'], c),
{
    c.to_string().strikethrough().to_string()
}

/// `Colorize::italic` of `colored`, formatted through `Display`.  The result
/// is the character between `ESC[3m` and `ESC[0m`, or the character alone
/// where `colored` finds colouring switched off.
#[verifier::external_body]
fn italic(c: char) -> (out: String)
    ensures
        out@ == seq![c] || out@ == escaped(seq!['3'], c),
{
    c.to_string().italic().to_string()
}

/// `Colorize::bold` of `colored`, formatted through `Display`.  The result is
/// the character between `ESC[1m` and `ESC[0m`, or the character alone where
/// `colored` finds colouring switched off.
#[verifier::external_body]
fn bold(c: char) -> (out: String)
    ensures
        out@ == seq![c] || out@ == escaped(seq!['1'], c),
{
    c.to_string().bold().to_string()
}

/// `Colorize::on_truecolor` of `colored`, formatted through `Display`.  The
/// result is the character between a sequence that selects a background and
/// `ESC[0m`, or the character alone where `colored` finds colouring switched
/// off.  The background code is `48;2;r;g;b` where the terminal is known to
/// show such colours; elsewhere `colored` puts the code of the nearest of the
/// sixteen basic backgrounds (40 to 47, 100 to 107) in its place.
#[verifier::external_body]
fn on_truecolor(c: char, r: u8, g: u8, b: u8) -> (out: String)
    ensures
        out@ == seq![c] || exists|code: Seq<char>|
            is_background_code(code, r, g, b) && out@ == #[trigger] escaped(code, c),
{
    c.to_string().on_truecolor(r, g, b).to_string()
}

/// Shows one character in the paint of a style.
pub fn paint(c: char, kind: StyleKind) -> (out: String)
    ensures
        is_painted(out@, c, kind),
{
    match kind {
        StyleKind::Normal => {
            let mut out = String::new();
            out.push(c);
            out
        },
        StyleKind::Number => cyan(c),
        StyleKind::SingleQuoteString => yellow(c),
        StyleKind::DoubleQuoteString => bright_red(c),
        StyleKind::Strikethrough => strikethrough(c),
        StyleKind::Highlight => {
            proof {
                lemma_highlight_code();
            }
            on_truecolor(c, HIGHLIGHT_RED, HIGHLIGHT_GREEN, HIGHLIGHT_BLUE)
        },
        StyleKind::Italic => italic(c),
        StyleKind::Bold => bold(c),
    }
}

/// The highlight's red, green and blue, written as a background code.
pub proof fn lemma_highlight_code()
    ensures
        truecolor_background(HIGHLIGHT_RED, HIGHLIGHT_GREEN, HIGHLIGHT_BLUE) == highlight_code(),
{
    reveal_with_fuel(decimal, 3);
    assert(decimal(135) =~= seq!['1', '3', '5']);
    assert(decimal(28) =~= seq!['2', '8']);
    assert(decimal(167) =~= seq!['1', '6', '7']);
    assert(truecolor_background(135, 28, 167) =~= highlight_code());
}

} // verus!
