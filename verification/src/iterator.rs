//! A list of numbers passed through a map and a filter.

use vstd::prelude::*;

verus! {

/// A number passes the filter when its bit of weight two is clear.
pub open spec fn passes(y: i32) -> bool {
    y & 2 == 0
}

/// Three times each number of `numbers` that passes the filter after it was tripled, in
/// the order of `numbers`.
pub open spec fn tripled_and_filtered(numbers: Seq<i32>) -> Seq<i32>
    decreases numbers.len(),
{
    if numbers.len() == 0 {
        seq![]
    } else {
        let earlier = tripled_and_filtered(numbers.drop_last());
        let tripled = (3 * numbers.last()) as i32;
        if passes(tripled) {
            earlier.push(tripled)
        } else {
            earlier
        }
    }
}

/// Triples every number and keeps the results that pass the filter. Every product has to
/// fit.
pub fn triple_and_filter(numbers: &Vec<i32>) -> (kept: Vec<i32>)
    requires
        forall|i: int|
            0 <= i < numbers.len() ==> i32::MIN <= 3 * #[trigger] numbers[i] <= i32::MAX,
    ensures
        kept@ == tripled_and_filtered(numbers@),
{
    let mut kept: Vec<i32> = Vec::new();
    let mut i: usize = 0;
    assert(numbers@.take(0) =~= Seq::<i32>::empty());
    while i < numbers.len()
        invariant
            i <= numbers.len(),
            forall|j: int|
                0 <= j < numbers.len() ==> i32::MIN <= 3 * #[trigger] numbers[j] <= i32::MAX,
            kept@ =~= tripled_and_filtered(numbers@.take(i as int)),
        decreases numbers.len() - i,
    {
        assert(numbers@.take(i + 1).drop_last() =~= numbers@.take(i as int));
        let y: i32 = numbers[i] * 3;
        if y & 2 == 0 {
            kept.push(y);
        }
        i += 1;
    }
    assert(numbers@.take(numbers@.len() as int) =~= numbers@);
    kept
}

} // verus!
