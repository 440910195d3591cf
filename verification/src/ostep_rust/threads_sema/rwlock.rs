//! Reader counting of the semaphore-based reader-writer lock.
//!
//! Readers hold the write lock as a group: the first reader to come takes
//! it and the last one to leave gives it back.  The functions here keep the
//! count and say when to take or give back the write lock; the caller holds
//! the count under the lock's guard semaphore and waits on or posts the
//! write-lock semaphore when told to.
use vstd::prelude::*;

verus! {

/// The number of readers inside a reader-writer lock.
pub struct Readers {
    readers: i32,
}

impl View for Readers {
    type V = int;

    closed spec fn view(&self) -> int {
        self.readers as int
    }
}

/// A lock with no reader inside.
pub fn rwlock_init() -> (lock: Readers)
    ensures
        lock@ == 0,
{
    Readers { readers: 0 }
}

/// A reader comes in; `true` when it is the first and must take the write
/// lock.
pub fn rwlock_acquire_readlock(lock: &mut Readers) -> (take_writelock: bool)
    requires
        old(lock)@ < i32::MAX,
    ensures
        final(lock)@ == old(lock)@ + 1,
        take_writelock == (old(lock)@ == 0),
{
    lock.readers = lock.readers + 1;
    lock.readers == 1
}

/// A reader leaves; `true` when it was the last and must give the write
/// lock back.
pub fn rwlock_release_readlock(lock: &mut Readers) -> (give_writelock: bool)
    requires
        old(lock)@ > i32::MIN,
    ensures
        final(lock)@ == old(lock)@ - 1,
        give_writelock == (old(lock)@ == 1),
{
    lock.readers = lock.readers - 1;
    lock.readers == 0
}

/// The number of readers inside.
pub fn readers(lock: &Readers) -> (n: i32)
    ensures
        n == lock@,
{
    lock.readers
}

/// Readers inside after a run of arrivals (`true`) and departures
/// (`false`), starting from none.
pub open spec fn readers_after(ops: Seq<bool>) -> int
    decreases ops.len(),
{
    if ops.len() == 0 {
        0
    } else {
        readers_after(ops.drop_last()) + if ops.last() {
            1int
        } else {
            -1int
        }
    }
}

/// How many more times the readers took the write lock than they gave it
/// back over a run of arrivals and departures, as the two functions above
/// tell them to.
pub open spec fn writelock_balance(ops: Seq<bool>) -> int
    decreases ops.len(),
{
    if ops.len() == 0 {
        0
    } else {
        let before = readers_after(ops.drop_last());
        let balance = writelock_balance(ops.drop_last());
        if ops.last() {
            balance + if before == 0 {
                1int
            } else {
                0int
            }
        } else {
            balance - if before == 1 {
                1int
            } else {
                0int
            }
        }
    }
}

/// No reader leaves that has not come in.
pub open spec fn departures_follow_arrivals(ops: Seq<bool>) -> bool {
    forall|i: int| 0 <= i <= ops.len() ==> readers_after(#[trigger] ops.take(i)) >= 0
}

/// The readers hold the write lock exactly while some reader is inside: it
/// is taken once more than given back while readers are inside, and as
/// often as given back when none are.
pub proof fn lemma_writelock_held_while_readers_inside(ops: Seq<bool>)
    requires
        departures_follow_arrivals(ops),
    ensures
        writelock_balance(ops) == if readers_after(ops) > 0 {
            1int
        } else {
            0int
        },
        readers_after(ops) >= 0,
    decreases ops.len(),
{
    assert(ops.take(ops.len() as int) =~= ops);
    if ops.len() > 0 {
        let prefix = ops.drop_last();
        assert forall|i: int| 0 <= i <= prefix.len() implies readers_after(#[trigger] prefix.take(i))
            >= 0 by {
            assert(prefix.take(i) =~= ops.take(i));
        }
        lemma_writelock_held_while_readers_inside(prefix);
    }
}

} // verus!
