//! The one place where chance enters: drawing an index.

use vstd::prelude::*;

verus! {

/// Draws an index below `bound` from the thread's random generator, by
/// `rand::Rng::gen_range` on `rand::thread_rng()` with the range
/// `0..bound`.
///
/// Not proved: that the value drawn lies in the range asked for. `rand`
/// refuses an empty range by a panic, which `bound > 0` rules out. Which
/// value comes is left open: two draws may differ.
#[verifier::external_body]
pub(crate) fn random_below(bound: i32) -> (index: i32)
    requires
        bound > 0,
    ensures
        0 <= index < bound,
{
    rand::Rng::gen_range(&mut rand::thread_rng(), 0..bound)
}

} // verus!
