//! The bounded buffer of the producer/consumer program, and the order in
//! which the producer puts items into it.
//!
//! Locking the buffer and waiting on its condition variable are done by the
//! caller around these functions: the producer waits while `is_full`, the
//! consumers wait while `is_empty`.
use vstd::prelude::*;
use vstd::arithmetic::div_mod::{
    lemma_add_mod_noop_right,
    lemma_fundamental_div_mod,
    lemma_mod_pos_bound,
    lemma_small_mod,
};

verus! {

/// The item that tells a consumer to stop.
pub const END_OF_PRODUCTION: i32 = -1;

/// Mathematical model of a `Buffer`: its slots, the two cursors and the
/// count of filled slots.
pub struct BufferState {
    pub slots: Seq<i32>,
    pub fill_ptr: nat,
    pub use_ptr: nat,
    pub num_full: int,
}

impl BufferState {
    /// The buffer has slots and both cursors point into them.
    pub open spec fn wf(self) -> bool {
        &&& self.slots.len() > 0
        &&& self.fill_ptr < self.slots.len()
        &&& self.use_ptr < self.slots.len()
    }

    /// The count agrees with the cursors: the filled slots run from
    /// `use_ptr`, wrapping round, up to `fill_ptr`.
    pub open spec fn consistent(self) -> bool {
        &&& self.wf()
        &&& 0 <= self.num_full <= self.slots.len()
        &&& self.fill_ptr == (self.use_ptr + self.num_full) % (self.slots.len() as int)
    }

    /// The items waiting in the buffer, oldest first.
    pub open spec fn contents(self) -> Seq<i32> {
        Seq::new(
            self.num_full as nat,
            |k: int| self.slots[(self.use_ptr + k) % (self.slots.len() as int)],
        )
    }

    /// The state that `do_fill(value)` leaves behind.
    pub open spec fn filled(self, value: i32) -> BufferState {
        BufferState {
            slots: self.slots.update(self.fill_ptr as int, value),
            fill_ptr: (self.fill_ptr + 1) % self.slots.len(),
            use_ptr: self.use_ptr,
            num_full: self.num_full + 1,
        }
    }

    /// The state that `do_get` leaves behind.
    pub open spec fn taken(self) -> BufferState {
        BufferState {
            slots: self.slots,
            fill_ptr: self.fill_ptr,
            use_ptr: (self.use_ptr + 1) % self.slots.len(),
            num_full: self.num_full - 1,
        }
    }
}

/// The buffer shared by the producer and the consumers.
pub struct Buffer {
    buffer: Vec<i32>,
    fill_ptr: usize,
    use_ptr: usize,
    num_full: i32,
}

impl View for Buffer {
    type V = BufferState;

    closed spec fn view(&self) -> BufferState {
        BufferState {
            slots: self.buffer@,
            fill_ptr: self.fill_ptr as nat,
            use_ptr: self.use_ptr as nat,
            num_full: self.num_full as int,
        }
    }
}

impl Buffer {
    /// An empty buffer of `max` slots, all zero.
    pub fn new(max: usize) -> (b: Self)
        requires
            max > 0,
        ensures
            b@ == (BufferState { slots: Seq::new(max as nat, |i: int| 0i32), fill_ptr: 0, use_ptr: 0, num_full: 0 }),
            b@.consistent(),
    {
        let mut buffer: Vec<i32> = Vec::new();
        let mut i: usize = 0;
        while i < max
            invariant
                i <= max,
                buffer@ =~= Seq::new(i as nat, |j: int| 0i32),
            decreases max - i,
        {
            buffer.push(0);
            i = i + 1;
        }
        proof {
            lemma_small_mod(0, max as nat);
        }
        Buffer { buffer, fill_ptr: 0, use_ptr: 0, num_full: 0 }
    }

    /// Whether every slot is filled; the producer waits while it is.
    pub fn is_full(&self) -> (full: bool)
        ensures
            full == (self@.num_full == self@.slots.len()),
    {
        self.num_full >= 0 && self.num_full as usize == self.buffer.len()
    }

    /// Whether no slot is filled; the consumers wait while it is.
    pub fn is_empty(&self) -> (empty: bool)
        ensures
            empty == (self@.num_full == 0),
    {
        self.num_full == 0
    }

    /// Stores `value` at the fill cursor, advances it and counts one more
    /// filled slot.
    pub fn do_fill(&mut self, value: i32)
        requires
            old(self)@.wf(),
            old(self)@.num_full < i32::MAX,
        ensures
            final(self)@ == old(self)@.filled(value),
            final(self)@.wf(),
    {
        let i = self.fill_ptr;
        assert(i < self.buffer.len());
        self.buffer.set(i, value);
        self.fill_ptr = (self.fill_ptr + 1) % self.buffer.len();
        self.num_full = self.num_full + 1;
    }

    /// Takes the item at the use cursor, advances it and counts one filled
    /// slot less.
    pub fn do_get(&mut self) -> (item: i32)
        requires
            old(self)@.wf(),
            old(self)@.num_full > i32::MIN,
        ensures
            item == old(self)@.slots[old(self)@.use_ptr as int],
            final(self)@ == old(self)@.taken(),
            final(self)@.wf(),
    {
        assert(self.use_ptr < self.buffer.len());
        let tmp = self.buffer[self.use_ptr];
        self.use_ptr = (self.use_ptr + 1) % self.buffer.len();
        self.num_full = self.num_full - 1;
        tmp
    }
}

/// Two numbers less than `m` apart have different remainders.
proof fn lemma_distinct_remainders(a: int, b: int, m: int)
    requires
        0 <= a < b,
        b - a < m,
    ensures
        a % m != b % m,
{
    lemma_fundamental_div_mod(a, m);
    lemma_fundamental_div_mod(b, m);
    lemma_mod_pos_bound(a, m);
    lemma_mod_pos_bound(b, m);
    if a % m == b % m {
        assert(b - a == m * (b / m - a / m)) by (nonlinear_arith)
            requires
                a == m * (a / m) + a % m,
                b == m * (b / m) + b % m,
                a % m == b % m,
        ;
        assert(false) by (nonlinear_arith)
            requires
                b - a == m * (b / m - a / m),
                0 < b - a < m,
                m > 0,
        ;
    }
}

/// A new buffer holds nothing.
pub proof fn lemma_new_buffer_is_empty(max: nat)
    requires
        max > 0,
    ensures
        ({
            let s = BufferState { slots: Seq::new(max, |i: int| 0i32), fill_ptr: 0, use_ptr: 0, num_full: 0 };
            s.consistent() && s.contents().len() == 0
        }),
{
    lemma_small_mod(0, max);
}

/// Filling a buffer that is not full appends the item after the waiting
/// ones, and the count keeps agreeing with the cursors.
pub proof fn lemma_fill_appends(s: BufferState, value: i32)
    requires
        s.consistent(),
        s.num_full < s.slots.len(),
    ensures
        s.filled(value).consistent(),
        s.filled(value).contents() =~= s.contents().push(value),
{
    let m = s.slots.len() as int;
    let t = s.filled(value);
    lemma_add_mod_noop_right(1, s.use_ptr + s.num_full, m);
    lemma_mod_pos_bound(s.fill_ptr + 1int, m);
    assert(t.fill_ptr == (t.use_ptr + t.num_full) % m);
    assert forall|k: int| 0 <= k < t.num_full implies #[trigger] t.contents()[k] == s.contents().push(
        value,
    )[k] by {
        lemma_mod_pos_bound(s.use_ptr + k, m);
        if k < s.num_full {
            lemma_distinct_remainders(s.use_ptr + k, s.use_ptr + s.num_full, m);
        }
    }
}

/// Taking from a buffer that is not empty hands out the oldest item and
/// leaves the others in order.
pub proof fn lemma_get_takes_oldest(s: BufferState)
    requires
        s.consistent(),
        s.num_full > 0,
    ensures
        s.slots[s.use_ptr as int] == s.contents()[0],
        s.taken().consistent(),
        s.taken().contents() =~= s.contents().drop_first(),
{
    let m = s.slots.len() as int;
    let t = s.taken();
    lemma_small_mod(s.use_ptr, m as nat);
    lemma_mod_pos_bound(s.use_ptr + 1int, m);
    lemma_add_mod_noop_right(t.num_full, s.use_ptr + 1int, m);
    assert(t.fill_ptr == (t.use_ptr + t.num_full) % m);
    assert forall|k: int| 0 <= k < t.num_full implies #[trigger] t.contents()[k]
        == s.contents().drop_first()[k] by {
        lemma_add_mod_noop_right(k, s.use_ptr + 1int, m);
    }
}

/// The buffer after a run of operations, starting from `s`: `Some(v)`
/// fills `v`, `None` takes an item.
pub open spec fn run_ops(s: BufferState, ops: Seq<Option<i32>>) -> BufferState
    decreases ops.len(),
{
    if ops.len() == 0 {
        s
    } else {
        let before = run_ops(s, ops.drop_last());
        match ops.last() {
            Some(value) => before.filled(value),
            None => before.taken(),
        }
    }
}

/// The items the fills of a run put in, in order.
pub open spec fn filled_items(ops: Seq<Option<i32>>) -> Seq<i32>
    decreases ops.len(),
{
    if ops.len() == 0 {
        Seq::empty()
    } else {
        match ops.last() {
            Some(value) => filled_items(ops.drop_last()).push(value),
            None => filled_items(ops.drop_last()),
        }
    }
}

/// The items the takes of a run hand out, in order.
pub open spec fn taken_items(s: BufferState, ops: Seq<Option<i32>>) -> Seq<i32>
    decreases ops.len(),
{
    if ops.len() == 0 {
        Seq::empty()
    } else {
        let before = run_ops(s, ops.drop_last());
        match ops.last() {
            Some(value) => taken_items(s, ops.drop_last()),
            None => taken_items(s, ops.drop_last()).push(before.slots[before.use_ptr as int]),
        }
    }
}

/// Every fill of the run waits for a free slot and every take for a filled
/// one, as the producer and the consumers do.
pub open spec fn waits_respected(s: BufferState, ops: Seq<Option<i32>>) -> bool
    decreases ops.len(),
{
    if ops.len() == 0 {
        true
    } else {
        let before = run_ops(s, ops.drop_last());
        &&& waits_respected(s, ops.drop_last())
        &&& match ops.last() {
            Some(value) => before.num_full < before.slots.len(),
            None => before.num_full > 0,
        }
    }
}

/// When fills wait for room and takes wait for an item, no item is lost or
/// overwritten: the takes hand out the waiting items and then the filled
/// ones, in the order they went in, and what is left waits in the buffer.
pub proof fn lemma_items_leave_in_order(s: BufferState, ops: Seq<Option<i32>>)
    requires
        s.consistent(),
        waits_respected(s, ops),
    ensures
        run_ops(s, ops).consistent(),
        s.contents() + filled_items(ops) =~= taken_items(s, ops) + run_ops(s, ops).contents(),
    decreases ops.len(),
{
    if ops.len() > 0 {
        let prefix = ops.drop_last();
        lemma_items_leave_in_order(s, prefix);
        let before = run_ops(s, prefix);
        match ops.last() {
            Some(value) => {
                lemma_fill_appends(before, value);
                assert(s.contents() + filled_items(prefix).push(value) =~= (s.contents()
                    + filled_items(prefix)).push(value));
                assert(taken_items(s, prefix) + before.contents().push(value) =~= (taken_items(
                    s,
                    prefix,
                ) + before.contents()).push(value));
            },
            None => {
                lemma_get_takes_oldest(before);
                let first = before.slots[before.use_ptr as int];
                assert(before.contents() =~= seq![first] + before.contents().drop_first());
                assert(taken_items(s, prefix) + before.contents() =~= taken_items(s, prefix).push(
                    first,
                ) + before.contents().drop_first());
            },
        }
    }
}

/// `x`, or zero when `x` is negative: how many times a loop `0..x` runs.
pub open spec fn at_least_zero(x: int) -> int {
    if x > 0 {
        x
    } else {
        0
    }
}

/// The item the producer puts in the buffer at step `i`: first the numbers
/// `0 .. loops`, then one end-of-production marker for each consumer.
pub open spec fn producer_item(i: int, loops: int, consumers: int) -> Option<i32> {
    if 0 <= i < loops {
        Some(i as i32)
    } else if at_least_zero(loops) <= i < at_least_zero(loops) + consumers {
        Some(END_OF_PRODUCTION)
    } else {
        None
    }
}

/// What the producer puts in the buffer at step `i`, or `None` once it is
/// done.
pub fn producer_next(i: i32, loops: i32, consumers: i32) -> (item: Option<i32>)
    requires
        i >= 0,
    ensures
        item == producer_item(i as int, loops as int, consumers as int),
{
    if i < loops {
        Some(i)
    } else {
        let produced: i64 = if loops > 0 { loops as i64 } else { 0 };
        if (i as i64) < produced + consumers as i64 {
            Some(END_OF_PRODUCTION)
        } else {
            None
        }
    }
}

/// The producer's items are the numbers below `loops`, which a consumer
/// takes as data, followed by exactly `consumers` end markers, one to stop
/// each consumer.
pub proof fn lemma_one_marker_per_consumer(loops: int, consumers: int, i: int)
    requires
        0 <= i <= i32::MAX,
    ensures
        i < loops ==> producer_item(i, loops, consumers) == Some(i as i32) && 0 <= i,
        producer_item(i, loops, consumers) == Some(END_OF_PRODUCTION) <==> at_least_zero(loops) <= i
            < at_least_zero(loops) + consumers,
        producer_item(i, loops, consumers) is None <==> i >= at_least_zero(loops) + at_least_zero(consumers),
{
}

} // verus!
