use web_server::queue::{JobQueue, TakeOutcome};
use web_server::PoolError;

#[test]
fn a_fresh_queue_is_open_and_empty() {
    let q = JobQueue::new();
    assert_eq!(q.len(), 0);
    assert!(!q.closed());
}

#[test]
fn delivery_is_first_in_first_out() {
    let mut q = JobQueue::new();
    assert!(q.submit(1).is_ok());
    assert!(q.submit(2).is_ok());
    assert!(q.submit(3).is_ok());
    assert_eq!(q.take(), TakeOutcome::Job(1));
    assert_eq!(q.take(), TakeOutcome::Job(2));
    assert_eq!(q.take(), TakeOutcome::Job(3));
}

#[test]
fn an_empty_open_queue_makes_the_taker_wait() {
    let mut q = JobQueue::new();
    assert_eq!(q.take(), TakeOutcome::WouldBlock);
    assert!(q.submit(9).is_ok());
    assert_eq!(q.take(), TakeOutcome::Job(9));
    assert_eq!(q.take(), TakeOutcome::WouldBlock);
}

#[test]
fn a_closed_queue_drains_before_ending_the_stream() {
    let mut q = JobQueue::new();
    assert!(q.submit(4).is_ok());
    assert!(q.submit(5).is_ok());
    q.close();
    assert!(q.closed());
    assert_eq!(q.len(), 2);
    assert_eq!(q.take(), TakeOutcome::Job(4));
    assert_eq!(q.take(), TakeOutcome::Job(5));
    assert_eq!(q.take(), TakeOutcome::EndOfStream);
    assert_eq!(q.take(), TakeOutcome::EndOfStream);
}

#[test]
fn submitting_to_a_closed_queue_is_fatal() {
    let mut q = JobQueue::new();
    q.close();
    assert_eq!(q.submit(7), Err(PoolError::Closed));
    assert_eq!(q.len(), 0);
    assert_eq!(q.take(), TakeOutcome::EndOfStream);
}
