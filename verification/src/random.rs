//! The outside source of randomness.

use vstd::prelude::*;

verus! {

/// A number below `bound`, drawn by `macroquad::rand::gen_range` with the
/// lower end 0 and the upper end `bound`.
///
/// The contract is believed, not proved. It states what the generator's
/// source shows for `usize`: a 32-bit draw is scaled into `[0, 1)`,
/// multiplied by the width of the range and rounded toward zero, so that
/// the result lies below the upper end whenever the range is not empty.
/// Which number comes out depends on the generator's state: of that the
/// contract says nothing, and two calls may differ.
#[verifier::external_body]
pub(crate) fn random_below(bound: usize) -> (r: usize)
    requires
        bound > 0,
    ensures
        r < bound,
{
    macroquad::rand::gen_range(0, bound)
}

} // verus!
