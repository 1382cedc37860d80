//! Tests of the bounded submission queue's backpressure and ordering,
//! and of the issuer options.

use winping::options::{DEFAULT_QUEUE_CAPACITY, DEFAULT_TIMEOUT_MS, DEFAULT_TTL};
use winping::{BoundedQueue, PingOptions};

#[test]
fn queue_is_fifo() {
    let mut q: BoundedQueue<u32> = BoundedQueue::new(4);
    q.push_back(10);
    q.push_back(20);
    q.push_back(30);
    assert_eq!(q.len(), 3);
    assert_eq!(q.pop_front(), Some(10));
    assert_eq!(q.pop_front(), Some(20));
    assert_eq!(q.pop_front(), Some(30));
    assert_eq!(q.pop_front(), None);
    assert!(q.is_empty());
}

#[test]
fn full_queue_refuses_until_drained() {
    let mut q: BoundedQueue<u32> = BoundedQueue::new(2);
    assert_eq!(q.capacity(), 2);
    assert_eq!(q.try_push_back(1), Ok(()));
    assert_eq!(q.try_push_back(2), Ok(()));
    assert!(q.is_full());
    // the excess submitter is held back, and its job is not dropped
    assert_eq!(q.try_push_back(3), Err(3));
    assert_eq!(q.len(), 2);
    // draining one slot lets the held-back job in, behind the others
    assert_eq!(q.pop_front(), Some(1));
    assert_eq!(q.try_push_back(3), Ok(()));
    assert_eq!(q.pop_front(), Some(2));
    assert_eq!(q.pop_front(), Some(3));
}

#[test]
fn options_defaults() {
    let opts = PingOptions::new();
    assert_eq!(opts.ttl(), DEFAULT_TTL);
    assert_eq!(opts.ttl(), 255);
    assert!(!opts.df());
    assert_eq!(opts.timeout(), DEFAULT_TIMEOUT_MS);
    assert_eq!(opts.timeout(), 2000);
    assert_eq!(PingOptions::default(), opts);
    assert_eq!(DEFAULT_QUEUE_CAPACITY, 1024);
}

#[test]
fn options_setters() {
    let mut opts = PingOptions::new();
    opts.set_ttl(64);
    opts.set_df(true);
    opts.set_timeout(250);
    assert_eq!(opts.ttl(), 64);
    assert!(opts.df());
    assert_eq!(opts.timeout(), 250);
}
