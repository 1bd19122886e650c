//! Rendering: the state machine run over a whole line, the choice between
//! styling a line and passing it through, and a document line by line.

use vstd::prelude::*;
use crate::catalog::{is_delimiter, StyleKind};
use crate::machine::{
    emission_at,
    is_digit,
    lemma_style_step,
    style_before,
    Emission,
    ScanState,
};
use crate::paint::{is_painted, paint};
use crate::prescan::{
    contains_pair,
    has_delimiter_pair,
    lemma_no_delimiter_no_pair,
    lemma_single_delimiters_no_pair,
};

verus! {

/// Whether `piece` is what a character `c` with the given emission may put
/// out: nothing, the character, or the character in its paint.
pub open spec fn piece_fits(piece: Seq<char>, emitted: Emission, c: char) -> bool {
    match emitted {
        Emission::Dropped => piece == Seq::<char>::empty(),
        Emission::Plain => piece == seq![c],
        Emission::Painted(kind) => is_painted(piece, c, kind),
    }
}

/// Whether `pieces` holds, for each character of `line` in order, a piece
/// that fits what the state machine emits for it.
pub open spec fn is_styling(line: Seq<char>, pieces: Seq<Seq<char>>) -> bool {
    &&& pieces.len() == line.len()
    &&& forall|i: int|
        0 <= i < line.len() ==> piece_fits(#[trigger] pieces[i], emission_at(line, i), line[i])
}

/// Whether `out` is `line` as the state machine styles it: the pieces of its
/// characters in order, and one line feed.
pub open spec fn is_styled_line(line: Seq<char>, out: Seq<char>) -> bool {
    exists|pieces: Seq<Seq<char>>| #[trigger]
        is_styling(line, pieces) && out == pieces.flatten().push('\n')
}

/// Whether `out` is `line` rendered: styled where the line holds a delimiter
/// pair, and the line itself with one line feed where it holds none.
pub open spec fn is_rendered_line(line: Seq<char>, out: Seq<char>) -> bool {
    if contains_pair(line) {
        is_styled_line(line, out)
    } else {
        out == line.push('\n')
    }
}

/// Whether `out` is the lines rendered one by one, in order, with nothing
/// between them.
pub open spec fn is_rendered_document(lines: Seq<String>, out: Seq<char>) -> bool {
    exists|rendered: Seq<Seq<char>>| #[trigger]
        is_rendering_of(lines, rendered) && out == rendered.flatten()
}

/// Whether `rendered` holds a rendering of each line, in order.
pub open spec fn is_rendering_of(lines: Seq<String>, rendered: Seq<Seq<char>>) -> bool {
    &&& rendered.len() == lines.len()
    &&& forall|i: int|
        0 <= i < lines.len() ==> is_rendered_line(lines[i]@, #[trigger] rendered[i])
}

/// Runs the state machine over a line, from `Normal`, and puts out each
/// character's piece and a final line feed.
pub fn style_line(line: &str) -> (out: String)
    ensures
        is_styled_line(line@, out@),
{
    let mut out = String::new();
    let mut state = ScanState::new();
    let ghost mut pieces: Seq<Seq<char>> = Seq::empty();
    proof {
        assert(line@.take(0) =~= Seq::<char>::empty());
    }
    for c in it: line.chars()
        invariant
            it.seq() == line@,
            state.active == style_before(line@, it.index() as int),
            pieces.len() == it.index(),
            forall|i: int|
                0 <= i < it.index() ==> piece_fits(
                    #[trigger] pieces[i],
                    emission_at(line@, i),
                    line@[i],
                ),
            out@ == pieces.flatten(),
    {
        let ghost before = pieces;
        proof {
            lemma_style_step(line@, it.index() as int);
        }
        match state.feed(c) {
            Emission::Dropped => {
                proof {
                    pieces = before.push(Seq::empty());
                }
            },
            Emission::Plain => {
                out.push(c);
                proof {
                    pieces = before.push(seq![c]);
                }
            },
            Emission::Painted(kind) => {
                let piece = paint(c, kind);
                out.append(piece.as_str());
                proof {
                    pieces = before.push(piece@);
                }
            },
        }
        proof {
            before.lemma_flatten_push(pieces.last());
            assert(out@ =~= pieces.flatten());
        }
    }
    out.push('\n');
    proof {
        assert(is_styling(line@, pieces));
    }
    out
}

/// Renders one line: styled where the prescan finds a delimiter pair, as it
/// is where it finds none, and with one line feed at the end either way.
pub fn apply_styles(line: String) -> (out: String)
    ensures
        is_rendered_line(line@, out@),
{
    if has_delimiter_pair(line.as_str()) {
        style_line(line.as_str())
    } else {
        let mut out = line;
        out.push('\n');
        out
    }
}

/// Renders the lines of a document in order into one text.
pub fn render_document(lines: &Vec<String>) -> (out: String)
    ensures
        is_rendered_document(lines@, out@),
{
    let mut out = String::new();
    let ghost mut rendered: Seq<Seq<char>> = Seq::empty();
    for k in 0..lines.len()
        invariant
            rendered.len() == k,
            forall|i: int| 0 <= i < k ==> is_rendered_line(lines@[i]@, #[trigger] rendered[i]),
            out@ == rendered.flatten(),
    {
        let line = apply_styles(lines[k].clone());
        out.append(line.as_str());
        proof {
            rendered.lemma_flatten_push(line@);
            rendered = rendered.push(line@);
            assert(out@ =~= rendered.flatten());
        }
    }
    proof {
        assert(is_rendering_of(lines@, rendered));
    }
    out
}

/// A line without any delimiter is rendered as itself with one line feed: no
/// character of it is painted, its digits neither.
pub proof fn lemma_undelimited_line_verbatim(line: Seq<char>, out: Seq<char>)
    requires
        is_rendered_line(line, out),
        forall|i: int| 0 <= i < line.len() ==> !is_delimiter(#[trigger] line[i]),
    ensures
        out == line.push('\n'),
{
    lemma_no_delimiter_no_pair(line);
}

/// A line in which no delimiter occurs twice is rendered as itself with one
/// line feed: a delimiter without a partner opens nothing.
pub proof fn lemma_unmatched_delimiters_verbatim(line: Seq<char>, out: Seq<char>)
    requires
        is_rendered_line(line, out),
        forall|i: int, j: int|
            0 <= i < j < line.len() && is_delimiter(#[trigger] line[i]) ==> line[i]
                != #[trigger] line[j],
    ensures
        out == line.push('\n'),
{
    lemma_single_delimiters_no_pair(line);
}

/// Pieces that are each one character of a line, in order, make up the line.
proof fn lemma_flatten_characters(line: Seq<char>, pieces: Seq<Seq<char>>)
    requires
        pieces.len() == line.len(),
        forall|i: int| 0 <= i < line.len() ==> #[trigger] pieces[i] == seq![line[i]],
    ensures
        pieces.flatten() == line,
    decreases line.len(),
{
    if line.len() == 0 {
        assert(pieces.flatten() =~= line);
    } else {
        let front = pieces.drop_last();
        lemma_flatten_characters(line.drop_last(), front);
        front.lemma_flatten_push(pieces.last());
        assert(front.push(pieces.last()) =~= pieces);
        assert(line.drop_last() + seq![line.last()] =~= line);
    }
}

/// On a line that holds neither a delimiter nor a digit the state machine
/// changes nothing: run on such a line, it puts out the line and one line
/// feed, as the way round the machine does.  On other lines without a pair
/// the two ways can part: the machine shows a digit as a number, drops a lone
/// silent delimiter, and paints what follows a lone delimiter.
pub proof fn lemma_machine_keeps_plain_text(line: Seq<char>, out: Seq<char>)
    requires
        is_styled_line(line, out),
        forall|i: int|
            0 <= i < line.len() ==> !is_delimiter(#[trigger] line[i]) && !is_digit(line[i]),
    ensures
        out == line.push('\n'),
        is_rendered_line(line, out),
{
    let pieces = choose|pieces: Seq<Seq<char>>| #[trigger]
        is_styling(line, pieces) && out == pieces.flatten().push('\n');
    assert forall|i: int| 0 <= i <= line.len() implies style_before(line, i)
        == StyleKind::Normal by {
        lemma_stays_normal(line, i);
    }
    assert forall|i: int| 0 <= i < line.len() implies #[trigger] pieces[i] == seq![line[i]] by {
        assert(!is_delimiter(line[i]) && !is_digit(line[i]));
        assert(piece_fits(pieces[i], emission_at(line, i), line[i]));
    }
    lemma_flatten_characters(line, pieces);
    lemma_no_delimiter_no_pair(line);
}

/// While neither a delimiter nor a digit has been read, no style is active.
proof fn lemma_stays_normal(line: Seq<char>, i: int)
    requires
        0 <= i <= line.len(),
        forall|k: int|
            0 <= k < line.len() ==> !is_delimiter(#[trigger] line[k]) && !is_digit(line[k]),
    ensures
        style_before(line, i) == StyleKind::Normal,
    decreases i,
{
    if i > 0 {
        lemma_stays_normal(line, i - 1);
        lemma_style_step(line, i - 1);
        assert(!is_delimiter(line[i - 1]) && !is_digit(line[i - 1]));
    } else {
        assert(line.take(0) =~= Seq::<char>::empty());
    }
}

} // verus!
