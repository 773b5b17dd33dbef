//! Counting with a plain loop.

use vstd::prelude::*;

verus! {

/// The whole part of the circle constant, the first threshold the counter has to pass.
pub const PI_WHOLE: i32 = 3;

/// Counts upward from zero until the counter has passed both thresholds, then reports five.
pub fn count_to_5() -> (n: i32)
    ensures
        n == 5,
{
    let mut number: i32 = 0;
    loop
        invariant
            0 <= number <= 6,
        decreases 6 - number,
    {
        if number > PI_WHOLE && number > 5 {
            break ;
        }
        number += 1;
    }
    5
}

} // verus!
