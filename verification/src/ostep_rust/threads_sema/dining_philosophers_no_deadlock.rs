//! The dining philosophers without deadlock: the last philosopher picks up
//! its right fork first, so that every philosopher takes the lower-numbered
//! of its two forks first.
use vstd::prelude::*;
use crate::ostep_rust::threads_sema::dining_philosophers_deadlock::{left, right, PHILOSOPHERS};

verus! {

/// The two forks philosopher `p` waits for, in the order it waits.
pub open spec fn fork_order(p: int) -> (int, int) {
    if p == 4 {
        ((p + 1) % 5, p)
    } else {
        (p, (p + 1) % 5)
    }
}

/// The forks philosopher `p` waits for: right first for the last
/// philosopher, left first for the others.
pub fn get_forks(p: i32) -> (forks: (i32, i32))
    requires
        0 <= p < PHILOSOPHERS,
    ensures
        forks.0 == fork_order(p as int).0,
        forks.1 == fork_order(p as int).1,
{
    if p == 4 {
        (right(p), left(p))
    } else {
        (left(p), right(p))
    }
}

/// The forks philosopher `p` puts back, left first.
pub fn put_forks(p: i32) -> (forks: (i32, i32))
    requires
        0 <= p < PHILOSOPHERS,
    ensures
        forks.0 == p,
        forks.1 == (p + 1) % 5,
{
    (left(p), right(p))
}

/// Every philosopher waits for its two forks in increasing fork order, so
/// forks are always taken in one global order and no cycle of waiting
/// philosophers can form.
pub proof fn lemma_forks_in_global_order(p: int)
    requires
        0 <= p < PHILOSOPHERS,
    ensures
        fork_order(p).0 < fork_order(p).1,
        0 <= fork_order(p).0 < PHILOSOPHERS,
        0 <= fork_order(p).1 < PHILOSOPHERS,
{
}

/// Changing the order does not change which forks a philosopher uses: its
/// left and its right one.
pub proof fn lemma_same_forks(p: int)
    requires
        0 <= p < PHILOSOPHERS,
    ensures
        (fork_order(p).0 == p && fork_order(p).1 == (p + 1) % 5) || (fork_order(p).0 == (p + 1) % 5
            && fork_order(p).1 == p),
{
}

} // verus!
