//! Arming of the next timer interrupt.
use vstd::prelude::*;

verus! {

/// Time units between two timer interrupts.
pub const INTERVAL: usize = 100000;

/// The time at which the next timer interrupt is due, `INTERVAL` after `now`.
pub fn next_timer_deadline(now: usize) -> (deadline: usize)
    requires
        now + INTERVAL <= usize::MAX,
    ensures
        deadline == now + INTERVAL,
{
    now + INTERVAL
}

} // verus!
