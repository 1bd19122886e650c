//! What the library takes from std's `String` beyond what `vstd` specifies.

use vstd::prelude::*;

verus! {

/// `String::push` of std: appends the character to the end of the string and
/// leaves what stood before it as it was.
pub assume_specification[ String::push ](s: &mut String, ch: char)
    ensures
        final(s)@ == old(s)@.push(ch),
;

} // verus!
