use rcore_labs::lab5::task::processor::{Processor, ThreadPool};
use rcore_labs::lab5::task::structs::Task;
use rcore_labs::lab5::task::Tid;

/// A first-come first-served pool for the tests.
struct FifoPool {
    next_tid: Tid,
    ready: Vec<(Tid, Box<Task>)>,
    retrieved: Vec<Tid>,
}

impl ThreadPool for FifoPool {
    // The relations that describe this pool's operations, for the verifier;
    // nothing calls them at run time.
    fn added(&self, before: Self, _thread: Box<Task>) -> bool {
        self.ready.len() == before.ready.len() + 1 && self.next_tid == before.next_tid + 1
    }

    fn acquired(&self, before: Self, got: Option<(Tid, Box<Task>)>) -> bool {
        match got {
            Some(_) => self.ready.len() + 1 == before.ready.len(),
            None => before.ready.is_empty() && self.ready.is_empty(),
        }
    }

    fn retrieved(&self, before: Self, tid: Tid, _thread: Box<Task>) -> bool {
        self.ready.len() == before.ready.len() + 1 && self.retrieved.last() == Some(&tid)
    }

    fn add(&mut self, thread: Box<Task>) {
        self.ready.push((self.next_tid, thread));
        self.next_tid += 1;
    }

    fn acquire(&mut self) -> Option<(Tid, Box<Task>)> {
        if self.ready.is_empty() {
            None
        } else {
            Some(self.ready.remove(0))
        }
    }

    fn retrieve(&mut self, tid: Tid, thread: Box<Task>) {
        self.retrieved.push(tid);
        self.ready.push((tid, thread));
    }
}

fn task(top: usize) -> Box<Task> {
    Box::new(Task::new(0x8020_0000, top, 0))
}

#[test]
fn idle_thread_schedules_pool_threads_in_turn() {
    let mut cpu: Processor<FifoPool> = Processor::new();
    cpu.init(task(0x10000), Box::new(FifoPool { next_tid: 1, ready: Vec::new(), retrieved: Vec::new() }));
    assert!(cpu.inner().current.is_none());
    cpu.add_thread(task(0x20000));
    cpu.add_thread(task(0x30000));
    assert_eq!(cpu.idle_schedule(), Some(1));
    assert_eq!(cpu.inner().current.as_ref().map(|c| c.0), Some(1));
    assert_eq!(cpu.idle_reclaim(), 1);
    assert!(cpu.inner().current.is_none());
    assert_eq!(cpu.idle_schedule(), Some(2));
    assert_eq!(cpu.idle_reclaim(), 2);
    assert_eq!(cpu.idle_schedule(), Some(1));
    assert_eq!(cpu.inner().pool.retrieved, vec![1, 2]);
    assert_eq!(cpu.inner().idle.kstack.0, 0x10000);
}

#[test]
fn idle_thread_waits_when_pool_is_empty() {
    let mut cpu: Processor<FifoPool> = Processor::new();
    cpu.init(task(0x10000), Box::new(FifoPool { next_tid: 1, ready: Vec::new(), retrieved: Vec::new() }));
    assert_eq!(cpu.idle_schedule(), None);
    assert!(cpu.inner().current.is_none());
}

#[test]
fn acquired_thread_becomes_current() {
    let mut cpu: Processor<FifoPool> = Processor::new();
    cpu.init(task(0x10000), Box::new(FifoPool { next_tid: 1, ready: Vec::new(), retrieved: Vec::new() }));
    assert_eq!(cpu.run_acquired(None), None);
    assert!(cpu.inner().current.is_none());
    assert_eq!(cpu.run_acquired(Some((7, task(0x40000)))), Some(7));
    let current = cpu.inner().current.as_ref().map(|c| (c.0, c.1.kstack.0));
    assert_eq!(current, Some((7, 0x40000)));
    assert!(cpu.inner().pool.ready.is_empty());
}
