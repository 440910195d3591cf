use rcore_labs::ostep_rust::threads_sema::dining_philosophers_deadlock as deadlock;
use rcore_labs::ostep_rust::threads_sema::dining_philosophers_no_deadlock as no_deadlock;
use rcore_labs::ostep_rust::threads_sema::producer_consumer_works::{producer_next, Buffer, END_OF_PRODUCTION};
use rcore_labs::ostep_rust::threads_sema::rwlock::{
    readers, rwlock_acquire_readlock, rwlock_init, rwlock_release_readlock,
};

#[test]
fn forks_around_the_table() {
    assert_eq!(deadlock::left(3), 3);
    assert_eq!(deadlock::right(3), 4);
    assert_eq!(deadlock::right(4), 0);
    assert_eq!(deadlock::right(-3), -2);
    assert_eq!(deadlock::get_forks(4), (4, 0));
    assert_eq!(deadlock::put_forks(4), (4, 0));
}

#[test]
fn last_philosopher_takes_right_fork_first() {
    assert_eq!(no_deadlock::get_forks(4), (0, 4));
    for p in 0..4 {
        assert_eq!(no_deadlock::get_forks(p), (p, p + 1));
    }
    for p in 0..5 {
        let (a, b) = no_deadlock::get_forks(p);
        assert!(a < b);
    }
    assert_eq!(no_deadlock::put_forks(4), (4, 0));
}

#[test]
fn buffer_is_first_in_first_out_with_wraparound() {
    let mut b = Buffer::new(2);
    assert!(b.is_empty());
    b.do_fill(10);
    b.do_fill(11);
    assert!(b.is_full());
    assert_eq!(b.do_get(), 10);
    b.do_fill(12);
    assert_eq!(b.do_get(), 11);
    assert_eq!(b.do_get(), 12);
    assert!(b.is_empty());
    assert!(!b.is_full());
}

#[test]
fn producer_items_then_end_markers() {
    let mut items = Vec::new();
    let mut i = 0;
    while let Some(v) = producer_next(i, 3, 2) {
        items.push(v);
        i += 1;
    }
    assert_eq!(items, vec![0, 1, 2, END_OF_PRODUCTION, END_OF_PRODUCTION]);
    assert_eq!(producer_next(0, 0, 1), Some(-1));
    assert_eq!(producer_next(1, 0, 1), None);
    assert_eq!(producer_next(0, -4, 0), None);
}

#[test]
fn first_reader_takes_and_last_gives_back_write_lock() {
    let mut lock = rwlock_init();
    assert!(rwlock_acquire_readlock(&mut lock));
    assert!(!rwlock_acquire_readlock(&mut lock));
    assert_eq!(readers(&lock), 2);
    assert!(!rwlock_release_readlock(&mut lock));
    assert!(rwlock_release_readlock(&mut lock));
    assert_eq!(readers(&lock), 0);
}
