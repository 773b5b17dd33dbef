//! Small transformations of numbers, pairs and words.

use vstd::prelude::*;
use crate::text::{contains, occurs_in, to_uppercase, uppercase_of};

verus! {

/// The square of `x`, which has to fit.
pub fn square(x: i32) -> (squared: i32)
    requires
        x * x <= i32::MAX,
    ensures
        squared == x * x,
{
    assert(x * x >= 0) by (nonlinear_arith);
    x * x
}

/// The pairs with one added to each first part. Every first part has to have room for it.
pub fn raise_firsts(pairs: &Vec<(i32, i32)>) -> (raised: Vec<(i32, i32)>)
    requires
        forall|i: int| 0 <= i < pairs.len() ==> (#[trigger] pairs[i]).0 < i32::MAX,
    ensures
        raised.len() == pairs.len(),
        forall|i: int|
            0 <= i < pairs.len() ==> (#[trigger] raised[i]).0 == pairs[i].0 + 1 && raised[i].1
                == pairs[i].1,
{
    let mut raised: Vec<(i32, i32)> = Vec::new();
    let mut i: usize = 0;
    while i < pairs.len()
        invariant
            i <= pairs.len(),
            raised.len() == i,
            forall|j: int| 0 <= j < pairs.len() ==> (#[trigger] pairs[j]).0 < i32::MAX,
            forall|j: int|
                0 <= j < i ==> (#[trigger] raised[j]).0 == pairs[j].0 + 1 && raised[j].1
                    == pairs[j].1,
        decreases pairs.len() - i,
    {
        let (x, y) = pairs[i];
        raised.push((x + 1, y));
        i += 1;
    }
    raised
}

/// Multiplies every number by three, in place. Every product has to fit.
pub fn triple_all(numbers: &mut Vec<i32>)
    requires
        forall|i: int|
            0 <= i < old(numbers).len() ==> i32::MIN <= 3 * #[trigger] old(numbers)[i]
                <= i32::MAX,
    ensures
        final(numbers).len() == old(numbers).len(),
        forall|i: int|
            0 <= i < old(numbers).len() ==> #[trigger] final(numbers)[i] == 3 * old(numbers)[i],
{
    let mut i: usize = 0;
    while i < numbers.len()
        invariant
            i <= numbers.len(),
            numbers.len() == old(numbers).len(),
            forall|j: int|
                0 <= j < old(numbers).len() ==> i32::MIN <= 3 * #[trigger] old(numbers)[j]
                    <= i32::MAX,
            forall|j: int| 0 <= j < i ==> #[trigger] numbers[j] == 3 * old(numbers)[j],
            forall|j: int| i <= j < numbers.len() ==> #[trigger] numbers[j] == old(numbers)[j],
        decreases numbers.len() - i,
    {
        let x = numbers[i];
        numbers[i] = x * 3;
        i += 1;
    }
}

/// A word is kept when no `h` stands in it.
pub open spec fn is_kept(word: Seq<char>) -> bool {
    !occurs_in(word, "h"@)
}

/// The kept words among `words`, each in upper case, in the order of `words`.
pub open spec fn transformed_of(words: Seq<&str>) -> Seq<Seq<char>>
    decreases words.len(),
{
    if words.len() == 0 {
        seq![]
    } else {
        let earlier = transformed_of(words.drop_last());
        if is_kept(words.last()@) {
            earlier.push(uppercase_of(words.last()@))
        } else {
            earlier
        }
    }
}

/// The texts as sequences of characters, in the same order.
pub open spec fn texts(words: Seq<String>) -> Seq<Seq<char>> {
    words.map_values(|w: String| w@)
}

/// Whether a word is kept.
pub fn keeps(word: &str) -> (kept: bool)
    ensures
        kept == is_kept(word@),
{
    !contains(word, "h")
}

/// Drops every word in which an `h` stands and puts the others in upper case.
pub fn transform(words: &Vec<&str>) -> (transformed: Vec<String>)
    ensures
        texts(transformed@) == transformed_of(words@),
{
    let mut transformed: Vec<String> = Vec::new();
    let mut i: usize = 0;
    assert(words@.take(0) =~= Seq::<&str>::empty());
    while i < words.len()
        invariant
            i <= words.len(),
            texts(transformed@) =~= transformed_of(words@.take(i as int)),
        decreases words.len() - i,
    {
        assert(words@.take(i + 1).drop_last() =~= words@.take(i as int));
        if keeps(words[i]) {
            transformed.push(to_uppercase(words[i]));
        }
        i += 1;
    }
    assert(words@.take(words@.len() as int) =~= words@);
    transformed
}

} // verus!
