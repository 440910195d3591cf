pub mod dining_philosophers_deadlock;
pub mod dining_philosophers_no_deadlock;
pub mod producer_consumer_works;
pub mod rwlock;
