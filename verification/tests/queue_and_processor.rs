use rcore_labs::lab3::thread::context::Context;
use rcore_labs::my_own_os::data_structure::queue;
use rcore_labs::my_own_os::thread::processor::{Processor, TIME_SLICE};
use rcore_labs::my_own_os::thread::structs::Thread;

fn pool_with(tids: &[(usize, usize)]) -> [Thread; 20] {
    let mut pool = [Thread::void_thread(); 20];
    for &(index, tid) in tids {
        pool[index] = Thread { tid, context: Context { addr: 0 }, Kernalstack: 0 };
    }
    pool
}

#[test]
fn new_queue_is_empty() {
    let q = queue::new();
    assert_eq!(q.size(), 0);
}

#[test]
fn queue_is_first_in_first_out() {
    let mut q = queue::new();
    q.enqueue(7);
    q.enqueue(8);
    q.enqueue(9);
    assert_eq!(q.size(), 3);
    assert_eq!(q.dequeue(), 7);
    assert_eq!(q.dequeue(), 8);
    q.enqueue(10);
    assert_eq!(q.dequeue(), 9);
    assert_eq!(q.dequeue(), 10);
    assert_eq!(q.size(), 0);
}

#[test]
fn full_back_compacts_and_drops_the_added_item() {
    let mut q = queue::new();
    for i in 0..200 {
        q.enqueue(i + 1);
    }
    assert_eq!(q.size(), 200);
    assert_eq!(q.dequeue(), 1);
    assert_eq!(q.dequeue(), 2);
    assert_eq!(q.size(), 198);
    // The back of the array is used up: the waiting items move to the
    // front, the last two slots of the array fill the rest, 999 is lost.
    q.enqueue(999);
    assert_eq!(q.size(), 200);
    let mut out = Vec::new();
    for _ in 0..200 {
        out.push(q.dequeue());
    }
    let mut expected: Vec<usize> = (3..=200).collect();
    expected.push(199);
    expected.push(200);
    assert_eq!(out, expected);
}

#[test]
fn enqueue_keeps_front_when_compacting() {
    let mut q = queue::new();
    for i in 0..200 {
        q.enqueue(i);
    }
    q.dequeue();
    q.enqueue(5000);
    assert_eq!(q.dequeue(), 1);
}

#[test]
fn alloc_tid_picks_first_free_entry() {
    let pool = pool_with(&[(0, 1), (1, 2), (3, 4)]);
    assert_eq!(Thread::alloc_TID(&pool), 3);
    let empty = pool_with(&[]);
    assert_eq!(Thread::alloc_TID(&empty), 1);
    let mut full = [Thread::void_thread(); 20];
    for (i, t) in full.iter_mut().enumerate() {
        t.tid = i + 1;
    }
    assert_eq!(Thread::alloc_TID(&full), 0);
}

#[test]
fn processor_init_runs_first_runnable_thread() {
    let pool = pool_with(&[(2, 3), (5, 6), (7, 8)]);
    let mut p = Processor::init(&pool);
    assert_eq!(p.get_current(), 3);
    assert_eq!(p.pop(), 6);
    assert_eq!(p.pop(), 8);
}

#[test]
fn tick_counts_down_then_rotates() {
    let pool = pool_with(&[(0, 1), (1, 2), (2, 3)]);
    let mut p = Processor::init(&pool);
    for _ in 0..TIME_SLICE {
        assert!(p.tick().is_none());
        assert_eq!(p.get_current(), 1);
    }
    let s = p.tick().expect("the slice is used up");
    assert_eq!((s.from, s.to), (1, 2));
    assert_eq!(p.get_current(), 2);
    for _ in 0..TIME_SLICE {
        assert!(p.tick().is_none());
    }
    let s = p.tick().expect("the slice is used up");
    assert_eq!((s.from, s.to), (2, 3));
    for _ in 0..TIME_SLICE {
        p.tick();
    }
    let s = p.tick().expect("the slice is used up");
    assert_eq!((s.from, s.to), (3, 1));
}

#[test]
fn single_thread_switches_to_itself() {
    let pool = pool_with(&[(4, 5)]);
    let mut p = Processor::init(&pool);
    for _ in 0..TIME_SLICE {
        p.tick();
    }
    let s = p.tick().expect("the slice is used up");
    assert_eq!((s.from, s.to), (5, 5));
}

#[test]
fn push_and_set_current() {
    let pool = pool_with(&[(0, 1)]);
    let mut p = Processor::init(&pool);
    p.push(9);
    p.set_current(4);
    assert_eq!(p.get_current(), 4);
    assert_eq!(p.pop(), 9);
}

#[test]
fn tick_counts_down_even_with_a_full_run_queue() {
    let pool = pool_with(&[(0, 1)]);
    let mut p = Processor::init(&pool);
    for i in 0..200 {
        p.push(i + 2);
    }
    assert_eq!(p.runnable_count(), 200);
    assert_eq!(p.rounds_left(), TIME_SLICE);
    assert!(p.tick().is_none());
    assert_eq!(p.rounds_left(), TIME_SLICE - 1);
    assert_eq!(p.get_current(), 1);
    assert_eq!(p.runnable_count(), 200);
}
