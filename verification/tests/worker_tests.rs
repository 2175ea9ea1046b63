use web_server::queue::TakeOutcome;
use web_server::worker::{Worker, WorkerAction};

#[test]
fn a_new_worker_is_running_and_keeps_its_identity() {
    let w = Worker::new(3);
    assert_eq!(w.ident(), 3);
    assert!(w.running());
}

#[test]
fn a_job_is_run_and_the_worker_pulls_on() {
    let mut w = Worker::new(0);
    let a = w.handle(TakeOutcome::Job(42));
    assert_eq!(a, WorkerAction::Run(42));
    assert!(w.running());
}

#[test]
fn an_empty_queue_parks_the_worker() {
    let mut w = Worker::new(0);
    let a = w.handle(TakeOutcome::WouldBlock);
    assert_eq!(a, WorkerAction::Park);
    assert!(w.running());
}

#[test]
fn end_of_stream_stops_the_worker_for_good() {
    let mut w = Worker::new(1);
    let a = w.handle(TakeOutcome::EndOfStream);
    assert_eq!(a, WorkerAction::Exit);
    assert!(!w.running());
}

#[test]
fn a_worker_survives_a_failing_job() {
    let mut w = Worker::new(2);
    let a = w.handle(TakeOutcome::Job(8));
    assert_eq!(a, WorkerAction::Run(8));
    assert!(w.job_finished(true));
    assert!(w.running());
    // ... and still accepts the next job afterwards.
    let a = w.handle(TakeOutcome::Job(9));
    assert_eq!(a, WorkerAction::Run(9));
    assert!(w.job_finished(false));
    assert!(w.running());
}
