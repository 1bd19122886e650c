//! The per-character state machine: which style is active, and what each
//! character contributes to the output.

use vstd::prelude::*;
use crate::catalog::{delimiter_kind, delimiter_style, is_delimiter, is_quote_style, StyleKind};

verus! {

/// What one character of the input contributes to the output.
#[derive(Clone, Copy, Debug, PartialEq, Eq, Structural)]
pub enum Emission {
    /// Nothing: the character was a marker only.
    Dropped,
    /// The character itself, without paint.
    Plain,
    /// The character in the paint of the given style.
    Painted(StyleKind),
}

/// Whether a character is a decimal digit.
pub open spec fn is_digit(c: char) -> bool {
    '0' <= c <= '9'
}

/// The style that a delimiter of style `kind` leaves active: it closes its own
/// style and replaces any other.
pub open spec fn toggled(active: StyleKind, kind: StyleKind) -> StyleKind {
    if active == kind {
        StyleKind::Normal
    } else {
        kind
    }
}

/// The style that is active after `c` has been read while `active` was.
pub open spec fn next_style(active: StyleKind, c: char) -> StyleKind {
    if is_digit(c) {
        StyleKind::Number
    } else if c == '.' {
        active
    } else {
        match delimiter_style(c) {
            Some(kind) => toggled(active, kind),
            None => active,
        }
    }
}

/// What `c` contributes to the output when it is read while `active` is the
/// active style.
pub open spec fn emission(active: StyleKind, c: char) -> Emission {
    if is_digit(c) {
        Emission::Painted(StyleKind::Number)
    } else if c == '.' {
        if active == StyleKind::Number {
            Emission::Painted(StyleKind::Number)
        } else {
            Emission::Plain
        }
    } else {
        match delimiter_style(c) {
            Some(kind) => if is_quote_style(kind) {
                Emission::Painted(kind)
            } else {
                Emission::Dropped
            },
            None => if active == StyleKind::Normal || active == StyleKind::Number {
                Emission::Plain
            } else {
                Emission::Painted(active)
            },
        }
    }
}

/// The style that is active once all of `prefix` has been read, starting from
/// `Normal`.
pub open spec fn style_after(prefix: Seq<char>) -> StyleKind
    decreases prefix.len(),
{
    if prefix.len() == 0 {
        StyleKind::Normal
    } else {
        next_style(style_after(prefix.drop_last()), prefix.last())
    }
}

/// The style that is active when the character at `i` is reached.
pub open spec fn style_before(line: Seq<char>, i: int) -> StyleKind {
    style_after(line.take(i))
}

/// What the character at `i` contributes to the output of its line.
pub open spec fn emission_at(line: Seq<char>, i: int) -> Emission {
    emission(style_before(line, i), line[i])
}

/// The state of one line's scan.
#[derive(Clone, Copy, Debug, PartialEq, Eq, Structural)]
pub struct ScanState {
    /// The style that is active now.
    pub active: StyleKind,
}

impl ScanState {
    /// The state at the start of a line: no style is active.
    pub fn new() -> (state: ScanState)
        ensures
            state.active == StyleKind::Normal,
    {
        ScanState { active: StyleKind::Normal }
    }

    /// Reads one character: moves to the next state and says what the
    /// character contributes to the output.
    pub fn feed(&mut self, c: char) -> (emitted: Emission)
        ensures
            final(self).active == next_style(old(self).active, c),
            emitted == emission(old(self).active, c),
    {
        let active = self.active;
        if '0' <= c && c <= '9' {
            self.active = StyleKind::Number;
            Emission::Painted(StyleKind::Number)
        } else if c == '.' {
            match active {
                StyleKind::Number => Emission::Painted(StyleKind::Number),
                _ => Emission::Plain,
            }
        } else {
            match delimiter_kind(c) {
                Some(kind) => {
                    self.active = if active == kind {
                        StyleKind::Normal
                    } else {
                        kind
                    };
                    if kind.is_quote() {
                        Emission::Painted(kind)
                    } else {
                        Emission::Dropped
                    }
                },
                None => match active {
                    StyleKind::Normal | StyleKind::Number => Emission::Plain,
                    _ => Emission::Painted(active),
                },
            }
        }
    }
}

/// Reading one more character moves the active style by one step.
pub proof fn lemma_style_step(line: Seq<char>, i: int)
    requires
        0 <= i < line.len(),
    ensures
        style_before(line, i + 1) == next_style(style_before(line, i), line[i]),
{
    assert(line.take(i + 1).drop_last() =~= line.take(i));
}

/// Whether a numeric run is active when the character at `i` is reached: a
/// digit stands before it, and no delimiter between that digit and it.
pub open spec fn number_active(line: Seq<char>, i: int) -> bool {
    exists|j: int|
        0 <= j < i && is_digit(#[trigger] line[j]) && forall|k: int|
            j < k < i ==> !is_delimiter(#[trigger] line[k])
}

/// The active style is `Number` exactly while a numeric run is active.
pub proof fn lemma_number_active(line: Seq<char>, i: int)
    requires
        0 <= i <= line.len(),
    ensures
        style_before(line, i) == StyleKind::Number <==> number_active(line, i),
    decreases i,
{
    if i > 0 {
        let c = line[i - 1];
        lemma_number_active(line, i - 1);
        lemma_style_step(line, i - 1);
        if is_digit(c) {
            assert(is_digit(line[i - 1]));
        } else if is_delimiter(c) {
            if number_active(line, i) {
                let j = choose|j: int|
                    0 <= j < i && is_digit(#[trigger] line[j]) && forall|k: int|
                        j < k < i ==> !is_delimiter(#[trigger] line[k]);
                assert(!is_delimiter(line[i - 1]));
            }
        } else {
            if number_active(line, i - 1) {
                let j = choose|j: int|
                    0 <= j < i - 1 && is_digit(#[trigger] line[j]) && forall|k: int|
                        j < k < i - 1 ==> !is_delimiter(#[trigger] line[k]);
                assert(is_digit(line[j]));
                assert forall|k: int| j < k < i implies !is_delimiter(#[trigger] line[k]) by {}
            }
            if number_active(line, i) {
                let j = choose|j: int|
                    0 <= j < i && is_digit(#[trigger] line[j]) && forall|k: int|
                        j < k < i ==> !is_delimiter(#[trigger] line[k]);
                assert(j < i - 1);
                assert(is_digit(line[j]));
                assert forall|k: int| j < k < i - 1 implies !is_delimiter(#[trigger] line[k]) by {}
            }
        }
    } else {
        assert(line.take(0) =~= Seq::<char>::empty());
    }
}

/// Every digit is shown in the paint of numbers, whatever style was active.
pub proof fn lemma_digit_painted(line: Seq<char>, i: int)
    requires
        0 <= i < line.len(),
        is_digit(line[i]),
    ensures
        emission_at(line, i) == Emission::Painted(StyleKind::Number),
{
}

/// A decimal point is shown in the paint of numbers while a numeric run is
/// active, and without paint otherwise.
pub proof fn lemma_point_painted(line: Seq<char>, i: int)
    requires
        0 <= i < line.len(),
        line[i] == '.',
    ensures
        number_active(line, i) ==> emission_at(line, i) == Emission::Painted(StyleKind::Number),
        !number_active(line, i) ==> emission_at(line, i) == Emission::Plain,
{
    lemma_number_active(line, i);
}

/// In a run of digits and decimal points that begins with a digit, every
/// character is shown in the paint of numbers.  This holds in particular of a
/// run in which each decimal point follows a digit.
pub proof fn lemma_numeric_run_painted(line: Seq<char>, start: int, i: int)
    requires
        0 <= start <= i < line.len(),
        is_digit(line[start]),
        forall|k: int| start <= k <= i ==> is_digit(#[trigger] line[k]) || line[k] == '.',
    ensures
        emission_at(line, i) == Emission::Painted(StyleKind::Number),
{
    if !is_digit(line[i]) {
        assert(is_digit(line[start]));
        assert forall|k: int| start < k < i implies !is_delimiter(#[trigger] line[k]) by {
            assert(is_digit(line[k]) || line[k] == '.');
        }
        assert(number_active(line, i));
        lemma_point_painted(line, i);
    }
}

/// What stands before the first delimiter of a line is never shown in the
/// paint of a delimiter's style: while no delimiter has been read, the active
/// style is `Normal` or `Number`, and a character that is neither a digit nor
/// a decimal point nor a delimiter is put out as it is.
pub proof fn lemma_plain_before_first_delimiter(line: Seq<char>, i: int)
    requires
        0 <= i <= line.len(),
        forall|k: int| 0 <= k < i ==> !is_delimiter(#[trigger] line[k]),
    ensures
        style_before(line, i) == StyleKind::Normal || style_before(line, i) == StyleKind::Number,
        i < line.len() && !is_digit(line[i]) && line[i] != '.' && !is_delimiter(line[i])
            ==> emission_at(line, i) == Emission::Plain,
    decreases i,
{
    if i > 0 {
        lemma_plain_before_first_delimiter(line, i - 1);
        lemma_style_step(line, i - 1);
        assert(!is_delimiter(line[i - 1]));
    } else {
        assert(line.take(0) =~= Seq::<char>::empty());
    }
}

} // verus!
