//! The kernel's fixed-size FIFO of thread identifiers.
//!
//! The queue lives in an array of `QUEUE_CAPACITY` slots with two cursors:
//! items are taken from `low` and stored at `hi`.  When the back of the
//! array is used up while some slots at the front are free again, `enqueue`
//! moves the live items to the front of the array; in that step the item
//! being added is not stored.
use vstd::prelude::*;

verus! {

/// Number of slots in the backing array of a `queue`.
pub const QUEUE_CAPACITY: usize = 200;

/// Mathematical model of a `queue`: the whole backing array and the two cursors.
pub struct QueueState {
    pub slots: Seq<usize>,
    pub low: nat,
    pub hi: nat,
}

impl QueueState {
    /// The cursors are ordered and lie inside the backing array.
    pub open spec fn wf(self) -> bool {
        &&& self.slots.len() == QUEUE_CAPACITY
        &&& self.low <= self.hi <= QUEUE_CAPACITY
    }

    /// The items waiting in the queue, oldest first.
    pub open spec fn contents(self) -> Seq<usize> {
        self.slots.subrange(self.low as int, self.hi as int)
    }

    /// The item that the next `dequeue` hands out.
    pub open spec fn front(self) -> usize {
        self.slots[self.low as int]
    }

    /// The state that `enqueue(added)` leaves behind.
    pub open spec fn enqueued(self, added: usize) -> QueueState {
        if self.hi < QUEUE_CAPACITY {
            QueueState { slots: self.slots.update(self.hi as int, added), low: self.low, hi: self.hi + 1 }
        } else {
            QueueState {
                slots: self.slots.subrange(self.low as int, QUEUE_CAPACITY as int)
                    + self.slots.subrange(QUEUE_CAPACITY - self.low, QUEUE_CAPACITY as int),
                low: 0,
                hi: QUEUE_CAPACITY as nat,
            }
        }
    }

    /// The state that `dequeue` leaves behind.
    pub open spec fn dequeued(self) -> QueueState {
        QueueState { slots: self.slots, low: self.low + 1, hi: self.hi }
    }

    /// The state of a freshly created queue.
    pub open spec fn initial() -> QueueState {
        QueueState { slots: Seq::new(QUEUE_CAPACITY as nat, |i: int| 0usize), low: 0, hi: 0 }
    }
}

/// A new queue is well formed and holds nothing.
pub proof fn lemma_initial_is_empty()
    ensures
        QueueState::initial().wf(),
        QueueState::initial().contents() =~= Seq::<usize>::empty(),
{
}

/// In every state that `new`, `enqueue` and `dequeue` leave behind, at most
/// `QUEUE_CAPACITY` items wait: `enqueue` is refused exactly when that many
/// wait, `dequeue` exactly when none does, and a `dequeue` leaves one item
/// fewer.
pub proof fn lemma_refusals_and_sizes(s: QueueState)
    requires
        s.wf(),
    ensures
        s.contents().len() <= QUEUE_CAPACITY,
        !(s.contents().len() < QUEUE_CAPACITY) <==> s.contents().len() == QUEUE_CAPACITY,
        !(s.contents().len() > 0) <==> s.contents().len() == 0,
        s.contents().len() > 0 ==> s.dequeued().wf() && s.dequeued().contents().len()
            == s.contents().len() - 1,
{
}

/// While the back of the array has room, `enqueue` appends its argument
/// after the items already waiting.
pub proof fn lemma_enqueue_appends(s: QueueState, added: usize)
    requires
        s.wf(),
        s.hi < QUEUE_CAPACITY,
    ensures
        s.enqueued(added).wf(),
        s.enqueued(added).contents() =~= s.contents().push(added),
{
}

/// `dequeue` hands out the oldest item and leaves the others in order.
pub proof fn lemma_dequeue_takes_front(s: QueueState)
    requires
        s.wf(),
        s.contents().len() > 0,
    ensures
        s.front() == s.contents()[0],
        s.dequeued().wf(),
        s.dequeued().contents() =~= s.contents().drop_first(),
{
}

/// Whatever branch `enqueue` takes, the item at the front of a non-empty
/// queue stays at the front.
pub proof fn lemma_enqueue_keeps_front(s: QueueState, added: usize)
    requires
        s.wf(),
        0 < s.contents().len() < QUEUE_CAPACITY,
    ensures
        s.enqueued(added).front() == s.front(),
{
}

/// Items leave in the order in which they came: on an empty queue with
/// room at the back, the item just added is the next one handed out, and
/// afterwards the queue is empty again.
pub proof fn lemma_first_in_first_out(s: QueueState, added: usize)
    requires
        s.wf(),
        s.contents().len() == 0,
        s.hi < QUEUE_CAPACITY,
    ensures
        s.enqueued(added).front() == added,
        s.enqueued(added).dequeued().contents().len() == 0,
{
}

/// When the back of the array is used up, `enqueue` moves the waiting
/// items to the front, fills the rest of the queue with the last slots of
/// the array, and does not store the item it was given.
pub proof fn lemma_enqueue_compacts_when_back_is_full(s: QueueState, added: usize, other: usize)
    requires
        s.wf(),
        s.hi == QUEUE_CAPACITY,
        s.low > 0,
    ensures
        s.enqueued(added).wf(),
        s.enqueued(added) == s.enqueued(other),
        s.enqueued(added).contents() =~= s.contents() + s.slots.subrange(
            QUEUE_CAPACITY - s.low,
            QUEUE_CAPACITY as int,
        ),
        s.enqueued(added).contents().len() == QUEUE_CAPACITY,
{
}

/// A FIFO of `usize` values backed by a fixed array.
#[allow(non_camel_case_types)]
#[derive(Copy, Clone)]
pub struct queue {
    x: [usize; 200],
    low: usize,
    hi: usize,
}

impl View for queue {
    type V = QueueState;

    closed spec fn view(&self) -> QueueState {
        QueueState { slots: self.x@, low: self.low as nat, hi: self.hi as nat }
    }
}

impl queue {
    #[verifier::type_invariant]
    spec fn cursors_in_range(self) -> bool {
        self.low <= self.hi <= QUEUE_CAPACITY
    }

    /// An empty queue whose slots all hold zero.
    pub fn new() -> (q: Self)
        ensures
            q@ == QueueState::initial(),
            q@.wf(),
    {
        let q = queue { x: [0; 200], low: 0, hi: 0 };
        assert(q.x@ =~= QueueState::initial().slots);
        q
    }

    /// Number of items waiting in the queue.
    pub fn size(self) -> (n: usize)
        ensures
            n == self@.contents().len(),
            self@.wf(),
        no_unwind
    {
        proof {
            use_type_invariant(&self);
        }
        self.hi - self.low
    }

    /// Removes and returns the oldest item.
    pub fn dequeue(&mut self) -> (item: usize)
        requires
            old(self)@.contents().len() > 0,
        ensures
            item == old(self)@.front(),
            item == old(self)@.contents()[0],
            final(self)@ == old(self)@.dequeued(),
            final(self)@.wf(),
        no_unwind
    {
        proof {
            use_type_invariant(&*self);
        }
        self.low = self.low + 1;
        self.x[self.low - 1]
    }

    /// Adds `added` at the back.  When the back of the array is used up,
    /// the live items are moved to the front of the array instead, and
    /// `added` is not stored.
    pub fn enqueue(&mut self, added: usize)
        requires
            old(self)@.contents().len() < QUEUE_CAPACITY,
        ensures
            final(self)@ == old(self)@.enqueued(added),
            final(self)@.wf(),
        no_unwind
    {
        proof {
            use_type_invariant(&*self);
        }
        if self.hi < 200 {
            self.x[self.hi] = added;
            self.hi = self.hi + 1;
        } else {
            let low = self.low;
            let ghost old_x = self.x@;
            let mut i = low;
            while i < 200
                invariant
                    0 < low <= i <= 200,
                    self.low == low,
                    self.hi == 200,
                    self.x@.len() == 200,
                    old_x.len() == 200,
                    forall|j: int| 0 <= j < i - low ==> self.x@[j] == old_x[j + low],
                    forall|j: int| i - low <= j < 200 ==> self.x@[j] == old_x[j],
                decreases 200 - i,
            {
                let moved = self.x[i];
                self.x[i - low] = moved;
                i = i + 1;
            }
            self.low = 0;
            self.hi = self.size();
            assert(self.x@ =~= old_x.subrange(low as int, 200) + old_x.subrange(200 - low, 200));
        }
    }
}

} // verus!
