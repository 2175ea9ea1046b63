//! The job queue: the transport between submitters and workers.
//!
//! A queue is a single logical channel.  It holds zero or more pending jobs
//! in arrival order and is either *open* (accepts submissions, yields jobs)
//! or *closed* (rejects submissions, ends iteration).  The transition from
//! open to closed is one-way and happens exactly once, at pool teardown.
//! Each enqueued job is delivered to exactly one taker, exactly once, and the
//! queue is drained to empty before end-of-stream is observed.

use vstd::prelude::*;

use crate::PoolError;

verus! {

/// A job is an opaque unit of work, identified here by a tag chosen by the
/// submitter.  Ownership transfers to whichever worker dequeues it.
pub type JobId = u64;

/// What a single attempt to pull work from the queue yields.
#[derive(Debug, PartialEq, Eq, Structural)]
pub enum TakeOutcome {
    /// A job was handed over; ownership transfers to the caller.
    Job(JobId),
    /// The queue is open but currently empty; the caller would block here
    /// and try again once something arrives.
    WouldBlock,
    /// The queue is closed and fully drained; the caller should stop.
    EndOfStream,
}

/// The shared transport carrying jobs from submitters to workers.
pub struct JobQueue {
    jobs: Vec<JobId>,
    closed: bool,
}

impl JobQueue {
    /// The pending jobs, oldest first.
    pub closed spec fn pending(&self) -> Seq<JobId> {
        self.jobs@
    }

    /// Whether the queue has been closed for new submissions.
    pub closed spec fn is_closed(&self) -> bool {
        self.closed
    }

    /// Creates an open, empty queue.
    pub fn new() -> (q: JobQueue)
        ensures
            q.pending() == Seq::<JobId>::empty(),
            !q.is_closed(),
    {
        JobQueue { jobs: Vec::new(), closed: false }
    }

    /// Enqueues a job.  Fails only if the queue has already been closed,
    /// which cannot happen while the owning pool is alive.
    pub fn submit(&mut self, job: JobId) -> (r: Result<(), PoolError>)
        ensures
            !old(self).is_closed() ==> {
                &&& r is Ok
                &&& final(self).pending() == old(self).pending().push(job)
                &&& !final(self).is_closed()
            },
            old(self).is_closed() ==> r == Err::<(), PoolError>(PoolError::Closed)
                && *final(self) == *old(self),
    {
        if self.closed {
            Err(PoolError::Closed)
        } else {
            self.jobs.push(job);
            Ok(())
        }
    }

    /// One attempt by a worker to pull work: yields the oldest pending job,
    /// or reports that the caller would block, or end-of-stream once the
    /// queue is closed and drained.
    pub fn take(&mut self) -> (r: TakeOutcome)
        ensures
            old(self).pending().len() > 0 ==> {
                &&& r == TakeOutcome::Job(old(self).pending()[0])
                &&& final(self).pending() == old(self).pending().drop_first()
                &&& final(self).is_closed() == old(self).is_closed()
            },
            old(self).pending().len() == 0 && !old(self).is_closed() ==>
                r == TakeOutcome::WouldBlock && *final(self) == *old(self),
            old(self).pending().len() == 0 && old(self).is_closed() ==>
                r == TakeOutcome::EndOfStream && *final(self) == *old(self),
    {
        if self.jobs.len() > 0 {
            let job = self.jobs.remove(0);
            proof {
                assert(self.jobs@ =~= old(self).jobs@.drop_first());
            }
            TakeOutcome::Job(job)
        } else if self.closed {
            TakeOutcome::EndOfStream
        } else {
            TakeOutcome::WouldBlock
        }
    }

    /// Closes the queue for new submissions.  Pending jobs are kept: they
    /// are still handed out before any taker sees end-of-stream.
    pub fn close(&mut self)
        ensures
            final(self).is_closed(),
            final(self).pending() == old(self).pending(),
    {
        self.closed = true;
    }

    /// How many jobs are waiting.
    pub fn len(&self) -> (n: usize)
        ensures
            n == self.pending().len(),
    {
        self.jobs.len()
    }

    /// Whether the queue has been closed.
    pub fn closed(&self) -> (c: bool)
        ensures
            c == self.is_closed(),
    {
        self.closed
    }
}

} // verus!
