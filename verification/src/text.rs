//! What the verifier is told about `String` beyond what vstd says already.

use vstd::prelude::*;

verus! {

/// `String::push` appends one character: afterwards the string reads as it
/// did before, followed by `ch`.
pub assume_specification[ String::push ](s: &mut String, ch: char)
    ensures
        final(s)@ == old(s)@.push(ch),
;

} // verus!
