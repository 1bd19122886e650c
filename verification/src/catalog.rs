//! The style catalogue: the closed set of style kinds and the delimiter
//! character that toggles each of them.

use vstd::prelude::*;

verus! {

/// A style that can be active while a line is scanned.  `Normal` means that
/// no style is active.
#[derive(Clone, Copy, Debug, PartialEq, Eq, Structural)]
pub enum StyleKind {
    Normal,
    Number,
    SingleQuoteString,
    DoubleQuoteString,
    Strikethrough,
    Highlight,
    Italic,
    Bold,
}

/// The style that a character toggles, or `None` where the character is no
/// delimiter.
pub open spec fn delimiter_style(c: char) -> Option<StyleKind> {
    if c == '\'' {
        Some(StyleKind::SingleQuoteString)
    } else if c == '"' {
        Some(StyleKind::DoubleQuoteString)
    } else if c == '~' {
        Some(StyleKind::Strikethrough)
    } else if c == '`' {
        Some(StyleKind::Highlight)
    } else if c == '*' {
        Some(StyleKind::Italic)
    } else if c == '_' {
        Some(StyleKind::Bold)
    } else {
        None
    }
}

/// Whether a character is one of the delimiters.
pub open spec fn is_delimiter(c: char) -> bool {
    delimiter_style(c) is Some
}

/// The delimiter characters, each once.
pub open spec fn delimiter_chars() -> Seq<char> {
    seq!['\'', '"', '~', '`', '*', '_']
}

/// Whether a style belongs to a quote delimiter, whose own character is
/// painted, rather than to a silent one, whose character is only a marker.
pub open spec fn is_quote_style(kind: StyleKind) -> bool {
    kind == StyleKind::SingleQuoteString || kind == StyleKind::DoubleQuoteString
}

/// Looks a character up in the catalogue.
pub fn delimiter_kind(c: char) -> (kind: Option<StyleKind>)
    ensures
        kind == delimiter_style(c),
{
    match c {
        '\'' => Some(StyleKind::SingleQuoteString),
        '"' => Some(StyleKind::DoubleQuoteString),
        '~' => Some(StyleKind::Strikethrough),
        '`' => Some(StyleKind::Highlight),
        '*' => Some(StyleKind::Italic),
        '_' => Some(StyleKind::Bold),
        _ => None,
    }
}

/// The full set of delimiter characters.
pub fn delimiters() -> (all: Vec<char>)
    ensures
        all@ == delimiter_chars(),
        forall|c: char| is_delimiter(c) <==> all@.contains(c),
{
    let all = vec!['\'', '"', '~', '`', '*', '_'];
    proof {
        lemma_delimiter_chars_complete();
    }
    all
}

impl StyleKind {
    /// Whether this is the style of a quote delimiter.
    pub fn is_quote(self) -> (quote: bool)
        ensures
            quote == is_quote_style(self),
    {
        match self {
            StyleKind::SingleQuoteString | StyleKind::DoubleQuoteString => true,
            _ => false,
        }
    }
}

/// The catalogue is total over its six characters and holds nothing else: a
/// character is a delimiter exactly when it is listed.
pub proof fn lemma_delimiter_chars_complete()
    ensures
        forall|c: char| is_delimiter(c) <==> delimiter_chars().contains(c),
        delimiter_chars().no_duplicates(),
{
    let all = delimiter_chars();
    assert forall|c: char| is_delimiter(c) <==> all.contains(c) by {
        if is_delimiter(c) {
            if c == '\'' {
                assert(all[0] == c);
            } else if c == '"' {
                assert(all[1] == c);
            } else if c == '~' {
                assert(all[2] == c);
            } else if c == '`' {
                assert(all[3] == c);
            } else if c == '*' {
                assert(all[4] == c);
            } else {
                assert(all[5] == c);
            }
        }
    }
}

} // verus!
