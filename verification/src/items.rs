//! Producer and consumer decisions: items are drawn from 1 to 100, and a reserved
//! value tells a consumer to stop.

use vstd::prelude::*;

use crate::rng::gen_range_i32;
use rand::rngs::ThreadRng;

verus! {

/// The value that tells a consumer to stop.
pub const TERMINATION_SIGNAL: i32 = -1;

/// Smallest and largest item a producer makes.
pub const MIN_ITEM: i32 = 1;
pub const MAX_ITEM: i32 = 100;

/// Whether `value` is the stop signal rather than an item.
pub fn is_termination_signal(value: i32) -> (b: bool)
    ensures
        b == (value == TERMINATION_SIGNAL),
{
    value == TERMINATION_SIGNAL
}

/// The items a producer sends, in order: `count` values drawn from 1..=100. None of
/// them can be mistaken for the stop signal.
pub fn producer_values(rng: &mut ThreadRng, count: usize) -> (items: Vec<i32>)
    ensures
        items@.len() == count,
        forall|i: int|
            0 <= i < count ==> MIN_ITEM <= #[trigger] items@[i] <= MAX_ITEM && items@[i]
                != TERMINATION_SIGNAL,
{
    let mut items: Vec<i32> = Vec::new();
    let mut i: usize = 0;
    while i < count
        invariant
            i <= count,
            items@.len() == i,
            forall|j: int|
                0 <= j < i ==> MIN_ITEM <= #[trigger] items@[j] <= MAX_ITEM && items@[j]
                    != TERMINATION_SIGNAL,
        decreases count - i,
    {
        let v = gen_range_i32(rng, MIN_ITEM, MAX_ITEM);
        items.push(v);
        i = i + 1;
    }
    items
}

} // verus!
