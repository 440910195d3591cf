//! Thread records of the thread pool and the choice of a free identifier.
use vstd::prelude::*;
use crate::lab3::thread::context::Context;

verus! {

/// Thread identifier; zero marks a free entry of the pool.
pub type TID = usize;

/// Number of entries in the thread pool.
pub const POOL_SIZE: usize = 20;

/// A kernel thread of the pool.
#[allow(non_snake_case)]
#[derive(Copy, Clone)]
pub struct Thread {
    pub tid: usize,
    pub context: Context,
    pub Kernalstack: usize,
}

/// The identifier that `alloc_TID` hands out for `pool`: one more than the
/// index of the first free entry, or zero when every entry is taken.
pub open spec fn first_free_tid(pool: Seq<Thread>) -> nat
    decreases pool.len(),
{
    if pool.len() == 0 {
        0
    } else if pool[0].tid == 0 {
        1
    } else {
        let rest = first_free_tid(pool.drop_first());
        if rest == 0 { 0 } else { rest + 1 }
    }
}

impl Thread {
    /// An unused pool entry.
    pub fn void_thread() -> (t: Self)
        ensures
            t.tid == 0,
            t.context.addr == 0,
            t.Kernalstack == 0,
    {
        Thread { tid: 0, context: Context { addr: 0 }, Kernalstack: 0 }
    }

    /// One more than the index of the first free entry of `threadspool`,
    /// or zero when no entry is free.
    #[allow(non_snake_case)]
    pub fn alloc_TID(threadspool: &[Thread; 20]) -> (tid: TID)
        ensures
            tid == first_free_tid(threadspool@),
            tid == 0 <==> forall|i: int| 0 <= i < POOL_SIZE ==> threadspool@[i].tid != 0,
            tid != 0 ==> threadspool@[tid - 1].tid == 0 && forall|i: int|
                0 <= i < tid - 1 ==> threadspool@[i].tid != 0,
    {
        let mut i: usize = 0;
        assert(threadspool@.subrange(0, 20) =~= threadspool@);
        while i < 20
            invariant
                0 <= i <= 20,
                threadspool@.len() == 20,
                forall|j: int| 0 <= j < i ==> threadspool@[j].tid != 0,
                first_free_tid(threadspool@) == if first_free_tid(threadspool@.subrange(i as int, 20)) == 0 {
                    0
                } else {
                    first_free_tid(threadspool@.subrange(i as int, 20)) + i
                },
            decreases 20 - i,
        {
            assert(threadspool@.subrange(i as int, 20).drop_first() =~= threadspool@.subrange(
                i + 1,
                20,
            ));
            if threadspool[i].tid == 0 {
                return i + 1;
            }
            i = i + 1;
        }
        assert(threadspool@.subrange(20, 20).len() == 0);
        0
    }
}

} // verus!
