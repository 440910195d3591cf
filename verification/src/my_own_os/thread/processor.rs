//! The round-robin processor: the running thread, the queue of runnable
//! threads and the ticks left in the running thread's time slice.
//!
//! `tick` decides; the context switch it asks for is carried out by the
//! caller, which holds the thread pool.
use vstd::prelude::*;
use crate::my_own_os::data_structure::{
    lemma_dequeue_takes_front,
    lemma_enqueue_appends,
    lemma_enqueue_compacts_when_back_is_full,
    lemma_enqueue_keeps_front,
    lemma_first_in_first_out,
    queue,
    QueueState,
    QUEUE_CAPACITY,
};
use crate::my_own_os::thread::structs::{Thread, TID};

verus! {

/// Ticks a thread keeps the processor after the tick on which it got it.
pub const TIME_SLICE: usize = 10;

/// Identifiers of the pool entries that hold a thread, in pool order.
pub open spec fn runnable_tids(pool: Seq<Thread>) -> Seq<usize>
    decreases pool.len(),
{
    if pool.len() == 0 {
        Seq::empty()
    } else {
        let rest = runnable_tids(pool.drop_last());
        if pool.last().tid > 0 {
            rest.push(pool.last().tid)
        } else {
            rest
        }
    }
}

/// There are no more runnable identifiers than pool entries.
pub proof fn lemma_runnable_tids_len(pool: Seq<Thread>)
    ensures
        runnable_tids(pool).len() <= pool.len(),
    decreases pool.len(),
{
    if pool.len() > 0 {
        lemma_runnable_tids_len(pool.drop_last());
    }
}

/// A context switch that the processor asks its caller to perform.
pub struct ThreadSwitch {
    pub from: TID,
    pub to: TID,
}

/// Mathematical model of a `Processor`.
pub struct ProcessorState {
    pub current: TID,
    pub run_queue: QueueState,
    pub round: usize,
}

impl ProcessorState {
    /// The state that `tick` leaves behind.
    pub open spec fn ticked(self) -> ProcessorState {
        if self.round > 0 {
            ProcessorState {
                current: self.current,
                run_queue: self.run_queue,
                round: (self.round - 1) as usize,
            }
        } else {
            let q = self.run_queue.enqueued(self.current);
            ProcessorState { current: q.front(), run_queue: q.dequeued(), round: TIME_SLICE }
        }
    }

    /// The switch that `tick` asks for.
    pub open spec fn tick_switch(self) -> Option<ThreadSwitch> {
        if self.round > 0 {
            None
        } else {
            Some(
                ThreadSwitch {
                    from: self.current,
                    to: self.run_queue.enqueued(self.current).front(),
                },
            )
        }
    }

    /// The state after `n` ticks.
    pub open spec fn ticked_n(self, n: nat) -> ProcessorState
        decreases n,
    {
        if n == 0 {
            self
        } else {
            self.ticked().ticked_n((n - 1) as nat)
        }
    }

    /// The state that `init` builds from the thread pool: the first runnable
    /// thread runs, the others wait in pool order.
    pub open spec fn initial(pool: Seq<Thread>) -> ProcessorState {
        let tids = runnable_tids(pool);
        ProcessorState {
            current: tids[0],
            run_queue: QueueState {
                slots: tids + Seq::new((QUEUE_CAPACITY - tids.len()) as nat, |i: int| 0usize),
                low: 1,
                hi: tids.len(),
            },
            round: TIME_SLICE,
        }
    }
}

/// The processor of the kernel.
#[derive(Copy, Clone)]
pub struct Processor {
    current_thread: TID,
    runnable_threads: queue,
    round: usize,
}

impl View for Processor {
    type V = ProcessorState;

    closed spec fn view(&self) -> ProcessorState {
        ProcessorState {
            current: self.current_thread,
            run_queue: self.runnable_threads@,
            round: self.round,
        }
    }
}

impl Processor {
    #[verifier::type_invariant]
    spec fn queue_well_formed(self) -> bool {
        self.runnable_threads@.wf()
    }

    /// Puts every thread of `threadspool` with a non-zero identifier in the
    /// run queue, in pool order, then lets the first of them run.
    pub fn init(threadspool: &[Thread; 20]) -> (p: Self)
        requires
            runnable_tids(threadspool@).len() > 0,
        ensures
            p@ == ProcessorState::initial(threadspool@),
            p@.run_queue.wf(),
    {
        let mut runnable_threads = queue::new();
        let mut i: usize = 0;
        while i < 20
            invariant
                i <= 20,
                threadspool@.len() == 20,
                runnable_threads@.wf(),
                runnable_threads@.low == 0,
                runnable_threads@.hi == runnable_tids(threadspool@.subrange(0, i as int)).len(),
                runnable_threads@.slots =~= runnable_tids(threadspool@.subrange(0, i as int))
                    + Seq::new(
                    (QUEUE_CAPACITY - runnable_threads@.hi) as nat,
                    |j: int| 0usize,
                ),
            decreases 20 - i,
        {
            let ghost prefix = threadspool@.subrange(0, i as int);
            let ghost next = threadspool@.subrange(0, i + 1);
            proof {
                lemma_runnable_tids_len(prefix);
                assert(next.drop_last() =~= prefix);
                assert(next.last() == threadspool@[i as int]);
            }
            if threadspool[i].tid > 0 {
                let ghost before = runnable_threads@;
                runnable_threads.enqueue(threadspool[i].tid);
                proof {
                    let tids = runnable_tids(prefix);
                    assert(runnable_threads@.slots =~= (tids + Seq::new(
                        (QUEUE_CAPACITY - tids.len()) as nat,
                        |j: int| 0usize,
                    )).update(tids.len() as int, threadspool@[i as int].tid));
                    assert(runnable_threads@.slots =~= tids.push(threadspool@[i as int].tid)
                        + Seq::new((QUEUE_CAPACITY - tids.len() - 1) as nat, |j: int| 0usize));
                }
            }
            i = i + 1;
        }
        assert(threadspool@.subrange(0, 20) =~= threadspool@);
        let current_thread = runnable_threads.dequeue();
        Processor { current_thread, runnable_threads, round: TIME_SLICE }
    }

    /// The running thread.
    pub fn get_current(self) -> (tid: TID)
        ensures
            tid == self@.current,
    {
        self.current_thread
    }

    /// Number of threads waiting in the run queue.
    pub fn runnable_count(self) -> (n: usize)
        ensures
            n == self@.run_queue.contents().len(),
    {
        self.runnable_threads.size()
    }

    /// Ticks left in the running thread's time slice.
    pub fn rounds_left(self) -> (n: usize)
        ensures
            n == self@.round,
    {
        self.round
    }

    /// Appends `added` to the run queue.
    pub fn push(&mut self, added: TID)
        requires
            old(self)@.run_queue.contents().len() < QUEUE_CAPACITY,
        ensures
            final(self)@ == (ProcessorState {
                run_queue: old(self)@.run_queue.enqueued(added),
                ..old(self)@
            }),
            final(self)@.run_queue.wf(),
    {
        self.runnable_threads.enqueue(added);
    }

    /// Takes the oldest thread out of the run queue.
    pub fn pop(&mut self) -> (tid: TID)
        requires
            old(self)@.run_queue.contents().len() > 0,
        ensures
            tid == old(self)@.run_queue.front(),
            final(self)@ == (ProcessorState { run_queue: old(self)@.run_queue.dequeued(), ..old(self)@ }),
            final(self)@.run_queue.wf(),
    {
        self.runnable_threads.dequeue()
    }

    /// Makes `setted` the running thread.
    pub fn set_current(&mut self, setted: TID)
        ensures
            final(self)@ == (ProcessorState { current: setted, ..old(self)@ }),
    {
        proof {
            use_type_invariant(&*self);
        }
        self.current_thread = setted;
    }

    /// Counts one timer tick.  When the time slice is used up, the running
    /// thread goes to the back of the run queue, the oldest waiting thread
    /// runs for a new slice, and the switch between the two is returned.
    pub fn tick(&mut self) -> (switch: Option<ThreadSwitch>)
        requires
            old(self)@.round > 0 || old(self)@.run_queue.contents().len() < QUEUE_CAPACITY,
        ensures
            final(self)@ == old(self)@.ticked(),
            switch == old(self)@.tick_switch(),
            final(self)@.run_queue.wf(),
    {
        proof {
            use_type_invariant(&*self);
        }
        if self.round > 0 {
            self.round = self.round - 1;
            None
        } else {
            let pre_current = self.get_current();
            self.push(pre_current);
            let next_current = self.pop();
            self.set_current(next_current);
            self.round = TIME_SLICE;
            Some(ThreadSwitch { from: pre_current, to: next_current })
        }
    }
}

/// While the time slice lasts, a tick only counts down and asks for no switch.
pub proof fn lemma_tick_counts_down(s: ProcessorState)
    requires
        s.round > 0,
    ensures
        s.tick_switch() is None,
        s.ticked().current == s.current,
        s.ticked().run_queue == s.run_queue,
        s.ticked().round == s.round - 1,
{
}

/// When the time slice is used up and the back of the run queue has room,
/// the running thread joins the back of the queue and the thread at the
/// front runs next, with a full time slice: the threads rotate.
pub proof fn lemma_tick_rotates(s: ProcessorState)
    requires
        s.run_queue.wf(),
        s.run_queue.hi < QUEUE_CAPACITY,
        s.round == 0,
    ensures
        ({
            let all = s.run_queue.contents().push(s.current);
            &&& s.ticked().current == all[0]
            &&& s.ticked().run_queue.contents() =~= all.drop_first()
            &&& s.ticked().run_queue.wf()
            &&& s.ticked().round == TIME_SLICE
            &&& s.tick_switch() == Some(ThreadSwitch { from: s.current, to: all[0] })
        }),
{
    let all = s.run_queue.contents().push(s.current);
    let q = s.run_queue.enqueued(s.current);
    assert(q.contents() =~= all);
    assert(q.dequeued().contents() =~= all.drop_first());
}

/// A thread that has just been given the processor keeps it for
/// `TIME_SLICE` ticks: they only count the slice down.
pub proof fn lemma_time_slice(s: ProcessorState, k: nat)
    requires
        k <= s.round,
    ensures
        s.ticked_n(k).current == s.current,
        s.ticked_n(k).run_queue == s.run_queue,
        s.ticked_n(k).round == s.round - k,
        forall|j: nat| j < k ==> (#[trigger] s.ticked_n(j)).tick_switch() is None,
    decreases k,
{
    if k > 0 {
        lemma_time_slice(s.ticked(), (k - 1) as nat);
        assert forall|j: nat| j < k implies (#[trigger] s.ticked_n(j)).tick_switch() is None by {
            if j > 0 {
                assert(s.ticked_n(j) == s.ticked().ticked_n((j - 1) as nat));
            }
        }
    }
}

/// `init` lets the first runnable thread of the pool run and queues the
/// others in pool order.
pub proof fn lemma_initial_schedule(pool: Seq<Thread>)
    requires
        runnable_tids(pool).len() > 0,
        pool.len() <= QUEUE_CAPACITY,
    ensures
        ProcessorState::initial(pool).current == runnable_tids(pool)[0],
        ProcessorState::initial(pool).run_queue.wf(),
        ProcessorState::initial(pool).run_queue.contents() =~= runnable_tids(pool).drop_first(),
{
    lemma_runnable_tids_len(pool);
}

/// The threads `init` schedules are the pool entries with a non-zero
/// identifier, all of them, in pool order: the running thread followed by
/// the run queue lists exactly the pool filtered on `tid > 0`.
pub proof fn lemma_initial_schedules_every_thread(pool: Seq<Thread>)
    requires
        runnable_tids(pool).len() > 0,
        pool.len() <= QUEUE_CAPACITY,
    ensures
        runnable_tids(pool) =~= pool.filter(|t: Thread| t.tid > 0).map_values(|t: Thread| t.tid),
        seq![ProcessorState::initial(pool).current] + ProcessorState::initial(pool).run_queue.contents()
            =~= pool.filter(|t: Thread| t.tid > 0).map_values(|t: Thread| t.tid),
        ProcessorState::initial(pool).run_queue.contents().len() + 1 == pool.filter(
            |t: Thread| t.tid > 0,
        ).len(),
{
    lemma_runnable_tids_is_filter(pool);
    lemma_initial_schedule(pool);
    let tids = runnable_tids(pool);
    assert(seq![tids[0]] + tids.drop_first() =~= tids);
}

/// `runnable_tids` keeps the identifiers of the entries with `tid > 0`.
pub proof fn lemma_runnable_tids_is_filter(pool: Seq<Thread>)
    ensures
        runnable_tids(pool) =~= pool.filter(|t: Thread| t.tid > 0).map_values(|t: Thread| t.tid),
    decreases pool.len(),
{
    reveal(Seq::filter);
    if pool.len() > 0 {
        let rest = pool.drop_last();
        lemma_runnable_tids_is_filter(rest);
        let kept = rest.filter(|t: Thread| t.tid > 0);
        if pool.last().tid > 0 {
            assert(pool.filter(|t: Thread| t.tid > 0) == kept.push(pool.last()));
            assert(kept.push(pool.last()).map_values(|t: Thread| t.tid) =~= kept.map_values(
                |t: Thread| t.tid,
            ).push(pool.last().tid));
        } else {
            assert(pool.filter(|t: Thread| t.tid > 0) == kept);
        }
    }
}

/// Every used-up time slice ends in a switch, wherever the run queue's
/// cursors stand: when threads wait and the queue is not full, the running
/// thread hands the processor to the oldest waiting thread, which gets a
/// full slice.
pub proof fn lemma_used_up_slice_switches_to_oldest(s: ProcessorState)
    requires
        s.run_queue.wf(),
        s.round == 0,
        0 < s.run_queue.contents().len() < QUEUE_CAPACITY,
    ensures
        s.tick_switch() == Some(ThreadSwitch { from: s.current, to: s.run_queue.contents()[0] }),
        s.ticked().current == s.run_queue.contents()[0],
        s.ticked().round == TIME_SLICE,
        s.ticked().run_queue.wf(),
        s.ticked().run_queue.contents().len() >= s.run_queue.contents().len(),
{
    lemma_enqueue_keeps_front(s.run_queue, s.current);
    lemma_dequeue_takes_front(s.run_queue);
    let q = s.run_queue.enqueued(s.current);
    if s.run_queue.hi < QUEUE_CAPACITY {
        lemma_enqueue_appends(s.run_queue, s.current);
    } else {
        lemma_enqueue_compacts_when_back_is_full(s.run_queue, s.current, s.current);
    }
    lemma_dequeue_takes_front(q);
}

/// When no other thread waits and the back of the run queue has room, a
/// used-up slice switches the running thread to itself.
pub proof fn lemma_lone_thread_keeps_running(s: ProcessorState)
    requires
        s.run_queue.wf(),
        s.round == 0,
        s.run_queue.contents().len() == 0,
        s.run_queue.hi < QUEUE_CAPACITY,
    ensures
        s.tick_switch() == Some(ThreadSwitch { from: s.current, to: s.current }),
        s.ticked().current == s.current,
        s.ticked().round == TIME_SLICE,
        s.ticked().run_queue.contents().len() == 0,
{
    lemma_first_in_first_out(s.run_queue, s.current);
}

} // verus!
