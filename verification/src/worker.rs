//! The worker: one long-lived executor pulling jobs until end-of-stream.
//!
//! A worker's life is a small state machine: it starts **running**, reacts to
//! each take outcome — execute the job and keep running, park and retry, or
//! stop on end-of-stream — and once **stopped** it never runs again.  A job
//! failing never stops a worker: failures are contained to the one execution.

use vstd::prelude::*;

use crate::queue::{JobId, TakeOutcome};

verus! {

/// What a worker decides to do with one take outcome.
#[derive(Debug, PartialEq, Eq, Structural)]
pub enum WorkerAction {
    /// Execute this job synchronously, then pull again.
    Run(JobId),
    /// Nothing to do yet: block on the queue and try again.
    Park,
    /// End-of-stream was observed: leave the pull loop for good.
    Exit,
}

/// One worker: an identity plus its lifecycle state.
pub struct Worker {
    id: usize,
    running: bool,
}

impl Worker {
    /// The worker's identity, fixed at construction.
    pub closed spec fn id(&self) -> usize {
        self.id
    }

    /// Whether the worker is still in its pull loop.
    pub closed spec fn is_running(&self) -> bool {
        self.running
    }

    /// Creates a worker, initially running (idle, waiting for work).
    pub fn new(id: usize) -> (w: Worker)
        ensures
            w.id() == id,
            w.is_running(),
    {
        Worker { id, running: true }
    }

    /// The worker's identity.
    pub fn ident(&self) -> (n: usize)
        ensures
            n == self.id(),
    {
        self.id
    }

    /// Whether the worker is still in its pull loop.
    pub fn running(&self) -> (b: bool)
        ensures
            b == self.is_running(),
    {
        self.running
    }

    /// The worker-loop decision: given what one pull from the queue yielded,
    /// transition and say what to do.  Only end-of-stream stops the worker.
    pub fn handle(&mut self, msg: TakeOutcome) -> (a: WorkerAction)
        requires
            old(self).is_running(),
        ensures
            final(self).id() == old(self).id(),
            msg matches TakeOutcome::Job(j) ==>
                a == WorkerAction::Run(j) && final(self).is_running(),
            msg is WouldBlock ==> a == WorkerAction::Park && final(self).is_running(),
            msg is EndOfStream ==> a == WorkerAction::Exit && !final(self).is_running(),
    {
        match msg {
            TakeOutcome::Job(j) => WorkerAction::Run(j),
            TakeOutcome::WouldBlock => WorkerAction::Park,
            TakeOutcome::EndOfStream => {
                self.running = false;
                WorkerAction::Exit
            },
        }
    }

    /// Failure containment: however a job ended — normally or by panicking —
    /// the worker survives and returns to pulling the next job.  The new
    /// state does not depend on `panicked` at all.
    pub fn job_finished(&mut self, panicked: bool) -> (survived: bool)
        requires
            old(self).is_running(),
        ensures
            final(self).id() == old(self).id(),
            final(self).is_running(),
            survived,
    {
        let _ = panicked;
        true
    }
}

} // verus!
