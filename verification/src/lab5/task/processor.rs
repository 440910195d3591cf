//! The processor of the scheduling kernel: an idle thread that hands the
//! processor to runnable threads taken from a thread pool, one at a time.
//!
//! The pool is reached through the three operations the processor needs
//! from it.  The context switches and the waiting for interrupts between two
//! scheduling decisions are performed by the caller.
use vstd::prelude::*;
use crate::lab5::task::Tid;
use crate::lab5::task::structs::Task;

verus! {

/// The operations the processor needs from a thread pool.
///
/// Each operation is described by a relation between the pool before and
/// after the call, which every pool defines for itself; the processor only
/// relies on the call having been made with the arguments it passes.
pub trait ThreadPool: Sized {
    /// `self` is what `before.add(thread)` leaves behind.
    spec fn added(&self, before: Self, thread: Box<Task>) -> bool;

    /// `self` is what `before.acquire()` leaves behind when it returns `got`.
    spec fn acquired(&self, before: Self, got: Option<(Tid, Box<Task>)>) -> bool;

    /// `self` is what `before.retrieve(tid, thread)` leaves behind.
    spec fn retrieved(&self, before: Self, tid: Tid, thread: Box<Task>) -> bool;

    /// Adds a new thread to the pool.
    fn add(&mut self, thread: Box<Task>)
        ensures
            final(self).added(*old(self), thread),
    ;

    /// Takes a runnable thread out of the pool, if there is one.
    fn acquire(&mut self) -> (got: Option<(Tid, Box<Task>)>)
        ensures
            final(self).acquired(*old(self), got),
    ;

    /// Gives back a thread whose turn on the processor has ended.
    fn retrieve(&mut self, tid: Tid, thread: Box<Task>)
        ensures
            final(self).retrieved(*old(self), tid, thread),
    ;
}

/// The state of an initialised processor.
pub struct ProcessorInner<P: ThreadPool> {
    /// The thread pool.
    pub pool: Box<P>,
    /// The idle thread, which runs the scheduling loop.
    pub idle: Box<Task>,
    /// The thread that has the processor, with its identifier.
    pub current: Option<(Tid, Box<Task>)>,
}

/// A processor, initialised or not.
pub struct Processor<P: ThreadPool> {
    inner: Option<ProcessorInner<P>>,
}

impl<P: ThreadPool> Processor<P> {
    /// The processor's state; `None` before `init`.
    pub closed spec fn state(&self) -> Option<ProcessorInner<P>> {
        self.inner
    }

    /// A processor that has not been initialised.
    pub fn new() -> (p: Self)
        ensures
            p.state() is None,
    {
        Processor { inner: None }
    }

    /// Initialises the processor with its idle thread and its thread pool;
    /// no thread has the processor yet.
    pub fn init(&mut self, idle: Box<Task>, pool: Box<P>)
        ensures
            final(self).state() == Some(ProcessorInner { pool, idle, current: None }),
    {
        self.inner = Some(ProcessorInner { pool, idle, current: None });
    }

    /// Whether `init` has been called.
    pub fn is_initialized(&self) -> (initialized: bool)
        ensures
            initialized == self.state() is Some,
    {
        self.inner.is_some()
    }

    /// The state of the initialised processor, for the caller to work on.
    pub fn inner(&mut self) -> (inner: &mut ProcessorInner<P>)
        requires
            old(self).state() is Some,
        ensures
            *inner == old(self).state().unwrap(),
            final(self).state() == Some(*final(inner)),
    {
        self.inner.as_mut().unwrap()
    }

    /// Hands `thread` to the pool's `add`; the idle thread and the running
    /// thread stay as they are.
    pub fn add_thread(&mut self, thread: Box<Task>)
        requires
            old(self).state() is Some,
        ensures
            final(self).state() is Some,
            final(self).state().unwrap().idle == old(self).state().unwrap().idle,
            final(self).state().unwrap().current == old(self).state().unwrap().current,
            (*final(self).state().unwrap().pool).added(*old(self).state().unwrap().pool, thread),
    {
        let inner = self.inner();
        inner.pool.add(thread);
    }

    /// One scheduling decision of the idle thread: a runnable thread taken
    /// from the pool becomes the running thread and its identifier is
    /// returned, for the caller to switch to it; when the pool has none,
    /// nothing changes and `None` tells the caller to wait for an interrupt.
    pub fn idle_schedule(&mut self) -> (tid: Option<Tid>)
        requires
            old(self).state() is Some,
        ensures
            final(self).state() is Some,
            final(self).state().unwrap().idle == old(self).state().unwrap().idle,
            tid is None ==> final(self).state().unwrap().current == old(
                self,
            ).state().unwrap().current,
            tid is Some ==> final(self).state().unwrap().current is Some
                && final(self).state().unwrap().current.unwrap().0 == tid.unwrap(),
            exists|got: Option<(Tid, Box<Task>)>|
                {
                    &&& (*final(self).state().unwrap().pool).acquired(
                        *old(self).state().unwrap().pool,
                        got,
                    )
                    &&& match got {
                        Some(thread) => tid == Some(thread.0) && final(self).state().unwrap().current
                            == Some(thread),
                        None => tid is None,
                    }
                },
    {
        let acquired = self.inner().pool.acquire();
        self.run_acquired(acquired)
    }

    /// What the idle thread does with the pool's answer `acquired`: a thread
    /// it handed out becomes the running thread and its identifier is
    /// returned; when it handed out none, nothing changes and `None` is
    /// returned.  The pool and the idle thread stay as they are.
    pub fn run_acquired(&mut self, acquired: Option<(Tid, Box<Task>)>) -> (tid: Option<Tid>)
        requires
            old(self).state() is Some,
        ensures
            final(self).state() is Some,
            final(self).state().unwrap().pool == old(self).state().unwrap().pool,
            final(self).state().unwrap().idle == old(self).state().unwrap().idle,
            match acquired {
                Some(thread) => {
                    &&& tid == Some(thread.0)
                    &&& final(self).state().unwrap().current == Some(thread)
                },
                None => {
                    &&& tid is None
                    &&& final(self).state().unwrap().current == old(self).state().unwrap().current
                },
            },
    {
        let inner = self.inner();
        match acquired {
            Some(thread) => {
                let tid = thread.0;
                inner.current = Some(thread);
                Some(tid)
            },
            None => None,
        }
    }

    /// After the running thread has switched back to the idle thread, gives
    /// it back to the pool's `retrieve` with its identifier, and returns that
    /// identifier; no thread has the
    /// processor afterwards.
    pub fn idle_reclaim(&mut self) -> (tid: Tid)
        requires
            old(self).state() is Some,
            old(self).state().unwrap().current is Some,
        ensures
            tid == old(self).state().unwrap().current.unwrap().0,
            final(self).state() is Some,
            final(self).state().unwrap().idle == old(self).state().unwrap().idle,
            final(self).state().unwrap().current is None,
            (*final(self).state().unwrap().pool).retrieved(
                *old(self).state().unwrap().pool,
                tid,
                old(self).state().unwrap().current.unwrap().1,
            ),
    {
        let inner = self.inner();
        let (tid, thread) = inner.current.take().unwrap();
        inner.pool.retrieve(tid, thread);
        tid
    }
}

} // verus!
