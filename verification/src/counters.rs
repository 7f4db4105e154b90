//! Counters that number registrations, playbacks and speculative work.

use vstd::prelude::*;

verus! {

/// The number after `number`, as far as there is one.
pub open spec fn next_number(number: u64) -> u64 {
    if number < u64::MAX {
        (number + 1) as u64
    } else {
        number
    }
}

/// What a counter stands at after it has counted on, which begins anew after its largest value.
pub open spec fn counted(counter: u64) -> u64 {
    if counter < u64::MAX {
        (counter + 1) as u64
    } else {
        0
    }
}

/// Lets a counter count on.
pub fn count(counter: &mut u64)
    ensures
        *final(counter) == counted(*old(counter)),
{
    *counter = if *counter < u64::MAX {
        *counter + 1
    } else {
        0
    };
}

/// Lets a counter count on, and gives the number that follows what it stood at.
pub fn take_number(counter: &mut u64) -> (number: u64)
    ensures
        number == next_number(*old(counter)),
        *final(counter) == counted(*old(counter)),
{
    let number: u64 = if *counter < u64::MAX {
        *counter + 1
    } else {
        u64::MAX
    };
    count(counter);
    number
}

/// A counter goes on by one; a number that has no follower stays, and a counter that has none begins
/// anew.
pub proof fn law_counters_go_on_by_one(number: u64)
    ensures
        number < u64::MAX ==> next_number(number) == number + 1 && counted(number) == number + 1,
        next_number(u64::MAX) == u64::MAX,
        counted(u64::MAX) == 0,
{
}

} // verus!
