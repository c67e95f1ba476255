//! What one atomic read-modify-write does to a word when it runs without
//! interference: the step of the interleaving models the laws speak of.

use vstd::prelude::*;

verus! {

/// Result of a compare-and-exchange of `current` against the word `word`:
/// `Ok(word)` when they are equal, else `Err(word)`.
pub open spec fn cas_result<T>(word: T, current: T) -> Result<T, T> {
    if word == current {
        Ok(word)
    } else {
        Err(word)
    }
}

} // verus!
