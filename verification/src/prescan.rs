//! The prescan: does a line hold a delimiter pair at all?  A line without one
//! is not handed to the state machine.

use vstd::prelude::*;
use crate::catalog::{delimiters, is_delimiter};

verus! {

/// Whether `d` occurs in `line` at an index below `n`.
spec fn occurs_before(line: Seq<char>, d: char, n: int) -> bool {
    exists|k: int| 0 <= k < n && k < line.len() && #[trigger] line[k] == d
}

/// Whether `d` occurs twice in `line` below index `n`, with at least one
/// character of any kind strictly between the two occurrences.
pub open spec fn occurs_paired_before(line: Seq<char>, d: char, n: int) -> bool {
    exists|i: int, j: int|
        0 <= i && i + 2 <= j && j < n && j < line.len() && #[trigger] line[i] == d
            && #[trigger] line[j] == d
}

/// Whether `d` occurs twice in `line` with at least one character of any kind
/// strictly between the two occurrences.
pub open spec fn occurs_paired(line: Seq<char>, d: char) -> bool {
    occurs_paired_before(line, d, line.len() as int)
}

/// Whether some delimiter occurs twice in `line` with at least one character
/// of any kind strictly between the two occurrences.
pub open spec fn contains_pair(line: Seq<char>) -> bool {
    exists|d: char| is_delimiter(d) && #[trigger] occurs_paired(line, d)
}

/// Whether `delimiter` occurs twice in the line with at least one character
/// between.  One pass, in constant space.
pub fn has_pair_of(line: &str, delimiter: char) -> (found: bool)
    ensures
        found == occurs_paired(line@, delimiter),
{
    // `earlier`: the delimiter stands at least two places back.
    // `previous`: the delimiter stands one place back.
    let mut earlier = false;
    let mut previous = false;
    let mut found = false;
    for c in it: line.chars()
        invariant
            it.seq() == line@,
            earlier == occurs_before(line@, delimiter, it.index() - 1),
            previous == (it.index() >= 1 && line@[it.index() - 1] == delimiter),
            found == occurs_paired_before(line@, delimiter, it.index() as int),
    {
        let ghost n = it.index() as int;
        proof {
            if earlier && c == delimiter {
                let k = choose|k: int| 0 <= k < n - 1 && k < line@.len() && line@[k] == delimiter;
                assert(line@[k] == delimiter && line@[n] == delimiter);
            }
            if occurs_paired_before(line@, delimiter, n + 1) && !found {
                let (i, j) = choose|i: int, j: int|
                    0 <= i && i + 2 <= j && j < n + 1 && j < line@.len() && #[trigger] line@[i]
                        == delimiter && #[trigger] line@[j] == delimiter;
                assert(j == n);
                assert(line@[i] == delimiter);
            }
            if previous {
                assert(line@[n - 1] == delimiter);
            }
            if occurs_before(line@, delimiter, n) && !earlier {
                let k = choose|k: int| 0 <= k < n && k < line@.len() && line@[k] == delimiter;
                assert(k == n - 1);
            }
        }
        found = found || (earlier && c == delimiter);
        earlier = earlier || previous;
        previous = c == delimiter;
    }
    found
}

/// The prescan of a line: whether it holds a delimiter pair.
pub fn has_delimiter_pair(line: &str) -> (found: bool)
    ensures
        found == contains_pair(line@),
        line@.len() < 3 ==> !found,
{
    proof {
        lemma_short_line_no_pair(line@);
    }
    let all = delimiters();
    let mut found = false;
    let mut k: usize = 0;
    while k < all.len() && !found
        invariant
            k <= all.len(),
            forall|c: char| is_delimiter(c) <==> all@.contains(c),
            found ==> contains_pair(line@),
            !found ==> forall|m: int| 0 <= m < k ==> !occurs_paired(line@, #[trigger] all@[m]),
        decreases all.len() - k + if found { 0int } else { 1int },
    {
        if has_pair_of(line, all[k]) {
            assert(all@.contains(all@[k as int]));
            found = true;
        } else {
            k = k + 1;
        }
    }
    proof {
        if !found && contains_pair(line@) {
            let d = choose|d: char| is_delimiter(d) && occurs_paired(line@, d);
            let m = choose|m: int| 0 <= m < all@.len() && all@[m] == d;
            assert(!occurs_paired(line@, all@[m]));
        }
    }
    found
}

/// A line in which no delimiter occurs holds no pair.
pub proof fn lemma_no_delimiter_no_pair(line: Seq<char>)
    requires
        forall|i: int| 0 <= i < line.len() ==> !is_delimiter(#[trigger] line[i]),
    ensures
        !contains_pair(line),
{
}

/// A line in which no delimiter occurs twice holds no pair, however many
/// different delimiters occur in it.
pub proof fn lemma_single_delimiters_no_pair(line: Seq<char>)
    requires
        forall|i: int, j: int|
            0 <= i < j < line.len() && is_delimiter(#[trigger] line[i]) ==> line[i]
                != #[trigger] line[j],
    ensures
        !contains_pair(line),
{
}

/// Two occurrences side by side are no pair: a line of fewer than three
/// characters, the empty line among them, holds none.
pub proof fn lemma_short_line_no_pair(line: Seq<char>)
    ensures
        line.len() < 3 ==> !contains_pair(line),
{
}

/// A delimiter that occurs twice with something between makes a pair, whatever
/// stands between the two occurrences.
pub proof fn lemma_pair_found(line: Seq<char>, i: int, j: int)
    requires
        0 <= i,
        i + 2 <= j < line.len(),
        is_delimiter(line[i]),
        line[i] == line[j],
    ensures
        contains_pair(line),
{
    assert(occurs_paired(line, line[i]));
}

} // verus!
