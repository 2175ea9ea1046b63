//! The pool: worker lifecycle, the submission endpoint, orderly shutdown.
//!
//! A pool owns a fixed, positive number of workers and the submitting end of
//! the shared queue.  While the pool is alive the endpoint is present and
//! every worker is running; teardown removes the endpoint first — closing the
//! queue — and then waits for each worker in ascending identity order, so no
//! queued job is lost and no worker leaks.
//!
//! The pool is a state machine over the whole system: workers, queue, and the
//! log of completed jobs.  Each transition (`execute`, `worker_step`,
//! `teardown`) carries a contract relating the state after to the state
//! before; any interleaving of transitions models one schedule of the
//! concurrent system.

use vstd::prelude::*;

use crate::queue::JobQueue;
use crate::queue::JobId;
use crate::worker::Worker;
use crate::worker::WorkerAction;
use crate::PoolError;

verus! {

/// A fixed-size worker pool with an orderly, blocking shutdown.
pub struct ThreadPool {
    workers: Vec<Worker>,
    queue: JobQueue,
    completed: Vec<JobId>,
}

impl ThreadPool {
    /// How many workers the pool owns; fixed for the pool's lifetime.
    pub closed spec fn size(&self) -> nat {
        self.workers@.len()
    }

    /// Whether the submission endpoint is still present.
    pub closed spec fn alive(&self) -> bool {
        !self.queue.is_closed()
    }

    /// The jobs waiting on the shared queue, oldest first.
    pub closed spec fn pending(&self) -> Seq<JobId> {
        self.queue.pending()
    }

    /// The jobs that have run, in the order their executions began.
    pub closed spec fn completed(&self) -> Seq<JobId> {
        self.completed@
    }

    /// Whether worker `i` is still in its pull loop.
    pub closed spec fn worker_running(&self, i: int) -> bool {
        self.workers@[i].is_running()
    }

    /// The pool's invariant: at least one worker, each worker's identity is
    /// its position, and while the pool is alive every worker is running.
    pub closed spec fn wf(&self) -> bool {
        &&& self.workers@.len() > 0
        &&& forall|i: int|
            0 <= i < self.workers@.len() ==> (#[trigger] self.workers@[i]).id() == i
        &&& self.alive() ==> forall|i: int|
            0 <= i < self.workers@.len() ==> (#[trigger] self.workers@[i]).is_running()
    }

    /// Constructs a pool of exactly `size` workers, all initially idle, bound
    /// to a fresh open queue.  A size of zero is a fatal construction error:
    /// no pool is ever built from it.
    pub fn new(size: usize) -> (r: Result<ThreadPool, PoolError>)
        ensures
            r is Ok <==> size > 0,
            size == 0 ==> r == Err::<ThreadPool, PoolError>(PoolError::ZeroSize),
            r matches Ok(p) ==> {
                &&& p.wf()
                &&& p.size() == size
                &&& p.alive()
                &&& p.pending() == Seq::<JobId>::empty()
                &&& p.completed() == Seq::<JobId>::empty()
                &&& forall|i: int| 0 <= i < size ==> p.worker_running(i)
            },
    {
        if size == 0 {
            return Err(PoolError::ZeroSize);
        }
        let mut workers: Vec<Worker> = Vec::new();
        let mut id: usize = 0;
        while id < size
            invariant
                id <= size,
                workers@.len() == id,
                forall|i: int| 0 <= i < id ==> (#[trigger] workers@[i]).id() == i,
                forall|i: int| 0 <= i < id ==> (#[trigger] workers@[i]).is_running(),
            decreases size - id,
        {
            workers.push(Worker::new(id));
            id += 1;
        }
        Ok(ThreadPool { workers, queue: JobQueue::new(), completed: Vec::new() })
    }

    /// Submits a job to the pool: enqueues it behind the jobs already
    /// waiting.  Succeeds exactly as long as the pool is alive; after
    /// teardown the submission endpoint is gone and submitting is a fatal
    /// use-after-teardown error, never a silent drop.
    pub fn execute(&mut self, job: JobId) -> (r: Result<(), PoolError>)
        requires
            old(self).wf(),
        ensures
            final(self).wf(),
            old(self).alive() ==> {
                &&& r is Ok
                &&& final(self).alive()
                &&& final(self).pending() == old(self).pending().push(job)
                &&& final(self).completed() == old(self).completed()
                &&& final(self).size() == old(self).size()
                &&& forall|i: int|
                    0 <= i < old(self).size() ==>
                        #[trigger] final(self).worker_running(i)
                            == old(self).worker_running(i)
            },
            !old(self).alive() ==> r == Err::<(), PoolError>(PoolError::Closed)
                && *final(self) == *old(self),
    {
        self.queue.submit(job)
    }

    /// One scheduling step of worker `i`: the worker pulls once from the
    /// shared queue and reacts.  If a job was waiting, the oldest one runs on
    /// this worker and is appended to the completion log; `job_panicked`
    /// tells whether that execution failed, and — deliberately — nothing in
    /// the outcome depends on it: a failing job is contained to its own
    /// execution and the worker pulls on.  On an empty open queue the worker
    /// parks; on a closed, drained queue it stops for good.
    ///
    /// Any interleaving of steps across workers models one schedule of the
    /// concurrent pool.
    pub fn worker_step(&mut self, i: usize, job_panicked: bool) -> (a: WorkerAction)
        requires
            old(self).wf(),
            i < old(self).size(),
            old(self).worker_running(i as int),
        ensures
            final(self).wf(),
            final(self).size() == old(self).size(),
            final(self).alive() == old(self).alive(),
            forall|j: int|
                0 <= j < old(self).size() && j != i ==>
                    #[trigger] final(self).worker_running(j) == old(self).worker_running(j),
            old(self).pending().len() > 0 ==> {
                &&& a == WorkerAction::Run(old(self).pending()[0])
                &&& final(self).pending() == old(self).pending().drop_first()
                &&& final(self).completed()
                    == old(self).completed().push(old(self).pending()[0])
                &&& final(self).worker_running(i as int)
            },
            old(self).pending().len() == 0 && old(self).alive() ==> {
                &&& a == WorkerAction::Park
                &&& final(self).pending() == old(self).pending()
                &&& final(self).completed() == old(self).completed()
                &&& final(self).worker_running(i as int)
            },
            old(self).pending().len() == 0 && !old(self).alive() ==> {
                &&& a == WorkerAction::Exit
                &&& final(self).pending() == old(self).pending()
                &&& final(self).completed() == old(self).completed()
                &&& !final(self).worker_running(i as int)
            },
    {
        let msg = self.queue.take();
        let mut w = self.workers.remove(i);
        let a = w.handle(msg);
        match a {
            WorkerAction::Run(job) => {
                self.completed.push(job);
                w.job_finished(job_panicked);
            },
            WorkerAction::Park => {},
            WorkerAction::Exit => {},
        }
        self.workers.insert(i, w);
        proof {
            assert(self.workers@ =~= old(self).workers@.update(i as int, w));
        }
        a
    }

    /// Tears the pool down: removes the submission endpoint — closing the
    /// queue once and for all — and then blocks on each worker in ascending
    /// identity order until it has exited.  Every job queued before teardown
    /// began runs, exactly once, in queue order, before this returns; after
    /// it returns the queue is empty and closed and no worker is running, so
    /// nothing can execute any more.  The pool is no longer alive afterwards,
    /// which is what makes a second teardown of the same pool impossible.
    pub fn teardown(&mut self)
        requires
            old(self).wf(),
            old(self).alive(),
        ensures
            final(self).wf(),
            !final(self).alive(),
            final(self).size() == old(self).size(),
            final(self).pending() == Seq::<JobId>::empty(),
            final(self).completed() == old(self).completed() + old(self).pending(),
            forall|i: int| 0 <= i < old(self).size() ==> !final(self).worker_running(i),
    {
        let ghost c0 = self.completed();
        let ghost p0 = self.pending();
        let ghost n0 = self.size();
        self.queue.close();
        let mut i: usize = 0;
        while i < self.workers.len()
            invariant
                self.wf(),
                !self.alive(),
                self.size() == n0,
                i <= n0,
                self.completed() + self.pending() == c0 + p0,
                i > 0 ==> self.pending().len() == 0,
                forall|j: int| 0 <= j < i ==> !(#[trigger] self.worker_running(j)),
                forall|j: int| i <= j < n0 ==> #[trigger] self.worker_running(j),
            decreases n0 - i,
        {
            let mut done = false;
            while !done
                invariant
                    self.wf(),
                    !self.alive(),
                    self.size() == n0,
                    i < n0,
                    self.completed() + self.pending() == c0 + p0,
                    forall|j: int| 0 <= j < i ==> !(#[trigger] self.worker_running(j)),
                    forall|j: int|
                        i < j < n0 ==> #[trigger] self.worker_running(j),
                    !done ==> self.worker_running(i as int),
                    done ==> !self.worker_running(i as int) && self.pending().len() == 0,
                decreases self.pending().len() + (if done { 0int } else { 1int }),
            {
                let a = self.worker_step(i, false);
                match a {
                    WorkerAction::Exit => {
                        done = true;
                    },
                    WorkerAction::Run(_) => {},
                    WorkerAction::Park => {
                        proof {
                            assert(false);
                        }
                    },
                }
            }
            i += 1;
        }
        proof {
            assert(self.completed() =~= c0 + p0);
        }
    }

    /// How many workers the pool owns.
    pub fn worker_count(&self) -> (n: usize)
        ensures
            n == self.size(),
    {
        self.workers.len()
    }

    /// Whether the submission endpoint is still present.
    pub fn is_alive(&self) -> (b: bool)
        ensures
            b == self.alive(),
    {
        !self.queue.closed()
    }

    /// Whether worker `i` is still in its pull loop.
    pub fn is_worker_running(&self, i: usize) -> (b: bool)
        requires
            i < self.size(),
        ensures
            b == self.worker_running(i as int),
    {
        self.workers[i].running()
    }

    /// How many jobs are waiting on the queue.
    pub fn queued_len(&self) -> (n: usize)
        ensures
            n == self.pending().len(),
    {
        self.queue.len()
    }

    /// How many jobs have run.
    pub fn completed_len(&self) -> (n: usize)
        ensures
            n == self.completed().len(),
    {
        self.completed.len()
    }

    /// The `i`th entry of the completion log, in execution order.
    pub fn completed_at(&self, i: usize) -> (j: JobId)
        requires
            i < self.completed().len(),
        ensures
            j == self.completed()[i as int],
    {
        self.completed[i]
    }
}

/// Law: no job is lost and none is duplicated.  `teardown` guarantees that
/// the completion log afterwards is the log before followed by everything
/// that was queued; therefore every job id occurs in the final log exactly
/// as often as it was queued plus as often as it had already run — and a
/// fresh, distinct job queued before teardown runs exactly once.
pub proof fn lemma_jobs_run_exactly_once(
    before: Seq<JobId>,
    queued: Seq<JobId>,
    after: Seq<JobId>,
)
    requires
        after == before + queued,
    ensures
        forall|j: JobId| #[trigger] after.to_multiset().count(j)
            == before.to_multiset().count(j) + queued.to_multiset().count(j),
        queued.no_duplicates() ==> forall|j: JobId|
            queued.contains(j) && !before.contains(j)
                ==> #[trigger] after.to_multiset().count(j) == 1,
{
    broadcast use vstd::seq_lib::group_to_multiset_ensures;
    broadcast use vstd::multiset::group_multiset_axioms;

    vstd::seq_lib::lemma_multiset_commutative(before, queued);
    if queued.no_duplicates() {
        queued.lemma_multiset_has_no_duplicates();
    }
}

/// Law: submission keeps each submitter's own order.  Enqueueing a job
/// appends it to its submitter's subsequence of the queue and leaves every
/// other submitter's subsequence untouched; so however many submitters
/// interleave, the queue holds each submitter's jobs in submission order.
pub proof fn lemma_submission_keeps_my_order(
    queued: Seq<JobId>,
    job: JobId,
    mine: spec_fn(JobId) -> bool,
)
    ensures
        mine(job) ==> queued.push(job).filter(mine) == queued.filter(mine).push(job),
        !mine(job) ==> queued.push(job).filter(mine) == queued.filter(mine),
{
    reveal(Seq::filter);
    assert(queued.push(job).drop_last() =~= queued);
    assert(queued.push(job).last() == job);
}

/// Law: per-submitter order is preserved.  Tag each submitter's jobs with a
/// predicate that recognises them; since the completion log extends in queue
/// order, the jobs of one submitter appear in the final log as exactly their
/// queued subsequence, in the same relative order, whatever the interleaving
/// with other submitters' jobs was.
pub proof fn lemma_per_submitter_order(
    before: Seq<JobId>,
    queued: Seq<JobId>,
    after: Seq<JobId>,
    mine: spec_fn(JobId) -> bool,
)
    requires
        after == before + queued,
    ensures
        after.filter(mine) == before.filter(mine) + queued.filter(mine),
{
    Seq::<JobId>::filter_distributes_over_add(before, queued, mine);
}

} // verus!
