//! Five philosophers around a table share five forks.  In this version
//! every philosopher picks up the left fork first, which lets all of them
//! hold one fork and wait for the next forever.
//!
//! The waiting and signalling on the forks' semaphores is done by the
//! caller, in the order these functions give.
use vstd::prelude::*;

verus! {

/// Number of philosophers, and of forks.
pub const PHILOSOPHERS: i32 = 5;

/// The fork on the left of philosopher `p`.
pub fn left(p: i32) -> (f: i32)
    ensures
        f == p,
{
    p
}

/// The remainder of `a` divided by `b`, with the sign of `a`, as Rust's `%`.
pub open spec fn truncated_rem(a: int, b: int) -> int {
    if a >= 0 {
        a % b
    } else {
        -((-a) % b)
    }
}

/// The fork on the right of philosopher `p`: the left fork of the next one.
pub fn right(p: i32) -> (f: i32)
    requires
        p < i32::MAX,
    ensures
        f == truncated_rem(p + 1, 5),
{
    (p + 1) % 5
}

/// The two forks philosopher `p` waits for, in the order it waits.
pub open spec fn fork_order(p: int) -> (int, int) {
    (p, (p + 1) % 5)
}

/// The forks philosopher `p` waits for, left first.
pub fn get_forks(p: i32) -> (forks: (i32, i32))
    requires
        0 <= p < PHILOSOPHERS,
    ensures
        forks.0 == fork_order(p as int).0,
        forks.1 == fork_order(p as int).1,
{
    (left(p), right(p))
}

/// The forks philosopher `p` puts back, left first.
pub fn put_forks(p: i32) -> (forks: (i32, i32))
    requires
        0 <= p < PHILOSOPHERS,
    ensures
        forks.0 == p,
        forks.1 == (p + 1) % 5,
{
    (left(p), right(p))
}

/// Each fork lies between two neighbours: the right fork of one
/// philosopher is the left fork of the next, and a philosopher's two forks
/// differ.
pub proof fn lemma_neighbours_share_forks(p: int)
    requires
        0 <= p < PHILOSOPHERS,
    ensures
        (p + 1) % 5 == fork_order((p + 1) % 5).0,
        fork_order(p).0 != fork_order(p).1,
        0 <= fork_order(p).1 < PHILOSOPHERS,
{
}

/// Why this version can deadlock: every philosopher's second fork is the
/// first fork of its neighbour, all the way round the table, so when each
/// holds its first fork every one of them waits for another.
pub proof fn lemma_circular_wait(p: int)
    requires
        0 <= p < PHILOSOPHERS,
    ensures
        fork_order(p).1 == fork_order((p + 1) % 5).0,
        fork_order(4).1 < fork_order(4).0,
{
}

} // verus!
