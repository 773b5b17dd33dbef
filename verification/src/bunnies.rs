//! Bunnies multiply.

use vstd::prelude::*;

verus! {

/// Eight times as many bunnies. The result has to fit.
///
/// Five bunnies become forty.
pub fn snuggle(bunnies: u128) -> (more: u128)
    requires
        bunnies * 8 <= u128::MAX,
    ensures
        more == bunnies * 8,
{
    bunnies * 8
}

} // verus!
