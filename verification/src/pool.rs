//! The worker-pool protocol: a fixed crew of workers, a FIFO dispatch
//! queue, and a shutdown sequence that loses no job.
//!
//! `ThreadPool` is the pool's coordinator. Each submitted job is identified
//! by a ticket, assigned in submission order; the caller pairs the ticket
//! with the callable it hands to a worker thread. The coordinator records
//! every state change of the protocol — submit, take, finish, close,
//! retire — and its well-formedness invariant accounts for every submitted
//! job exactly once: still queued, running on exactly one worker, or done.

use vstd::prelude::*;

verus! {

use std::collections::VecDeque;

/// Why a pool could not be built or a job could not be submitted.
#[derive(Clone, Copy, Debug, PartialEq, Eq, Structural)]
pub enum PoolError {
    /// A pool of zero workers could never execute a job.
    ZeroSize,
    /// The pool no longer accepts jobs: shutdown has begun.
    ShutDown,
}

/// What one worker is doing: waiting for a job, running the job with the
/// given ticket, or terminated for good. Termination is final by
/// construction: every operation that moves a worker asks for an idle or
/// a running one, so no terminated worker ever runs again.
#[derive(Clone, Copy, Debug, PartialEq, Eq, Structural)]
pub enum WorkerState {
    Idle,
    Running(u64),
    Terminated,
}

/// True of a worker that is mid-execution of some job.
pub open spec fn is_running(s: WorkerState) -> bool {
    s is Running
}

/// The ticket of the job a running worker holds (zero for the others).
pub open spec fn job_of(s: WorkerState) -> u64 {
    match s {
        WorkerState::Running(j) => j,
        _ => 0,
    }
}

/// One if the worker is running a job, zero otherwise.
pub open spec fn running_one(s: WorkerState) -> nat {
    if is_running(s) {
        1
    } else {
        0
    }
}

/// How many of the workers are running a job.
pub open spec fn running_jobs(ws: Seq<WorkerState>) -> nat
    decreases ws.len(),
{
    if ws.len() == 0 {
        0
    } else {
        running_jobs(ws.drop_last()) + running_one(ws.last())
    }
}

/// The pool's coordinator: the dispatch queue of pending tickets, the
/// state of each worker, how many jobs were ever submitted and how many
/// have finished, and whether submission is still open.
pub struct ThreadPool {
    queue: VecDeque<u64>,
    workers: Vec<WorkerState>,
    next_job: u64,
    done: u64,
    intake: bool,
}

impl ThreadPool {
    /// The tickets waiting in the dispatch queue, front first.
    pub closed spec fn pending(self) -> Seq<u64> {
        self.queue@
    }

    /// The state of each worker, by index.
    pub closed spec fn states(self) -> Seq<WorkerState> {
        self.workers@
    }

    /// How many jobs were ever submitted; also the next ticket.
    pub closed spec fn submitted(self) -> nat {
        self.next_job as nat
    }

    /// How many jobs have run to completion.
    pub closed spec fn completed(self) -> nat {
        self.done as nat
    }

    /// Whether the pool still accepts submissions.
    pub closed spec fn is_open(self) -> bool {
        self.intake
    }

    /// Well-formedness: at least one worker; every ticket in the queue or
    /// on a worker was submitted; no ticket sits in two places; and the
    /// counts of queued, running and done jobs add up to the count of
    /// submitted jobs — nothing is lost, nothing runs twice.
    pub open spec fn wf(self) -> bool {
        &&& self.states().len() >= 1
        &&& forall|i: int|
            0 <= i < self.pending().len() ==> #[trigger] self.pending()[i] < self.submitted()
        &&& forall|i: int, j: int|
            0 <= i < j < self.pending().len() ==> self.pending()[i] != self.pending()[j]
        &&& forall|w: int|
            0 <= w < self.states().len() && is_running(#[trigger] self.states()[w])
                ==> job_of(self.states()[w]) < self.submitted()
        &&& forall|w1: int, w2: int|
            0 <= w1 < self.states().len() && 0 <= w2 < self.states().len() && w1 != w2
                && is_running(#[trigger] self.states()[w1]) && is_running(
                #[trigger] self.states()[w2],
            ) ==> job_of(self.states()[w1]) != job_of(self.states()[w2])
        &&& forall|w: int, i: int|
            0 <= w < self.states().len() && is_running(#[trigger] self.states()[w]) && 0 <= i
                < self.pending().len() ==> #[trigger] self.pending()[i] != job_of(self.states()[w])
        &&& self.completed() + self.pending().len() + running_jobs(self.states())
            == self.submitted()
    }

    /// Builds a pool of `size` workers, every one idle, nothing submitted.
    /// A zero-worker pool could never run a job, so `size == 0` is refused
    /// before any worker exists.
    pub fn new(size: usize) -> (r: Result<ThreadPool, PoolError>)
        ensures
            (r is Err) <==> size == 0,
            (r matches Err(e) ==> e == PoolError::ZeroSize),
            (r matches Ok(p) ==> {
                &&& p.wf()
                &&& p.states().len() == size
                &&& forall|w: int| 0 <= w < size ==> #[trigger] p.states()[w] == WorkerState::Idle
                &&& p.pending() == Seq::<u64>::empty()
                &&& p.submitted() == 0
                &&& p.completed() == 0
                &&& p.is_open()
            }),
    {
        if size == 0 {
            return Err(PoolError::ZeroSize);
        }
        let mut workers: Vec<WorkerState> = Vec::new();
        let mut w: usize = 0;
        while w < size
            invariant
                w <= size,
                workers@.len() == w,
                forall|i: int| 0 <= i < w ==> #[trigger] workers@[i] == WorkerState::Idle,
            decreases size - w,
        {
            workers.push(WorkerState::Idle);
            w = w + 1;
        }
        let pool = ThreadPool {
            queue: VecDeque::new(),
            workers,
            next_job: 0,
            done: 0,
            intake: true,
        };
        proof {
            assert(pool.states() =~= pool.workers@);
            lemma_running_none(pool.states());
        }
        Ok(pool)
    }
    /// Records the submission of one job and returns its ticket, the next
    /// in submission order; the caller pairs the ticket with the callable
    /// it sends down the dispatch channel. Once the pool has begun to shut
    /// down the submission is refused and nothing changes, so no job can
    /// silently disappear into a closed channel.
    pub fn execute(&mut self) -> (r: Result<u64, PoolError>)
        requires
            old(self).wf(),
            old(self).submitted() < u64::MAX,
        ensures
            final(self).wf(),
            (r is Err) <==> !old(self).is_open(),
            (r matches Err(e) ==> e == PoolError::ShutDown && *final(self) == *old(self)),
            (r matches Ok(t) ==> {
                &&& t == old(self).submitted()
                &&& final(self).pending() == old(self).pending().push(t)
                &&& final(self).submitted() == old(self).submitted() + 1
                &&& final(self).states() == old(self).states()
                &&& final(self).completed() == old(self).completed()
                &&& final(self).is_open()
            }),
    {
        if !self.intake {
            return Err(PoolError::ShutDown);
        }
        let ticket = self.next_job;
        self.queue.push_back(ticket);
        self.next_job = self.next_job + 1;
        Ok(ticket)
    }

    /// An idle worker claims the job at the front of the queue: FIFO
    /// delivery, and the claimed ticket now sits on that worker alone.
    pub fn take_job(&mut self, w: usize) -> (t: u64)
        requires
            old(self).wf(),
            w < old(self).states().len(),
            old(self).states()[w as int] == WorkerState::Idle,
            old(self).pending().len() > 0,
        ensures
            final(self).wf(),
            t == old(self).pending()[0],
            final(self).pending() == old(self).pending().subrange(
                1,
                old(self).pending().len() as int,
            ),
            final(self).states() == old(self).states().update(w as int, WorkerState::Running(t)),
            final(self).submitted() == old(self).submitted(),
            final(self).completed() == old(self).completed(),
            final(self).is_open() == old(self).is_open(),
    {
        let front = self.queue.pop_front();
        let t = match front {
            Some(t) => t,
            None => {
                proof {
                    assert(false);
                }
                0
            },
        };
        self.workers.set(w, WorkerState::Running(t));
        proof {
            lemma_running_update(old(self).states(), w as int, WorkerState::Running(t));
        }
        t
    }

    /// The worker at `w` has run its job to completion and is idle again;
    /// one more job counts as done.
    pub fn finish(&mut self, w: usize)
        requires
            old(self).wf(),
            w < old(self).states().len(),
            is_running(old(self).states()[w as int]),
        ensures
            final(self).wf(),
            final(self).states() == old(self).states().update(w as int, WorkerState::Idle),
            final(self).completed() == old(self).completed() + 1,
            final(self).pending() == old(self).pending(),
            final(self).submitted() == old(self).submitted(),
            final(self).is_open() == old(self).is_open(),
    {
        proof {
            lemma_running_at_least(self.states(), w as int);
            lemma_running_update(old(self).states(), w as int, WorkerState::Idle);
        }
        self.workers.set(w, WorkerState::Idle);
        self.done = self.done + 1;
    }

    /// Begins shutdown: the sending side closes, so no further job can be
    /// submitted. Everything already queued or running is untouched.
    pub fn close(&mut self)
        requires
            old(self).wf(),
        ensures
            final(self).wf(),
            !final(self).is_open(),
            final(self).pending() == old(self).pending(),
            final(self).states() == old(self).states(),
            final(self).submitted() == old(self).submitted(),
            final(self).completed() == old(self).completed(),
    {
        self.intake = false;
    }

    /// An idle worker observes the closed, drained channel and terminates.
    /// A worker may terminate only once the pool is closed and the queue is
    /// empty, so no queued job is ever abandoned.
    pub fn retire(&mut self, w: usize)
        requires
            old(self).wf(),
            !old(self).is_open(),
            old(self).pending().len() == 0,
            w < old(self).states().len(),
            old(self).states()[w as int] == WorkerState::Idle,
        ensures
            final(self).wf(),
            final(self).states() == old(self).states().update(w as int, WorkerState::Terminated),
            final(self).pending() == old(self).pending(),
            final(self).submitted() == old(self).submitted(),
            final(self).completed() == old(self).completed(),
            !final(self).is_open(),
    {
        proof {
            lemma_running_update(old(self).states(), w as int, WorkerState::Terminated);
        }
        self.workers.set(w, WorkerState::Terminated);
    }

    /// How many workers the pool was built with.
    pub fn worker_count(&self) -> (n: usize)
        ensures
            n == self.states().len(),
    {
        self.workers.len()
    }

    /// How many submitted jobs are still waiting in the queue.
    pub fn pending_count(&self) -> (n: usize)
        ensures
            n == self.pending().len(),
    {
        self.queue.len()
    }

    /// How many jobs were ever submitted.
    pub fn submitted_count(&self) -> (n: u64)
        ensures
            n == self.submitted(),
    {
        self.next_job
    }

    /// How many jobs have run to completion.
    pub fn completed_count(&self) -> (n: u64)
        ensures
            n == self.completed(),
    {
        self.done
    }

    /// Whether the pool still accepts submissions.
    pub fn is_accepting(&self) -> (b: bool)
        ensures
            b == self.is_open(),
    {
        self.intake
    }

    /// The state of the worker at index `w`.
    pub fn worker_state(&self, w: usize) -> (s: WorkerState)
        requires
            w < self.states().len(),
        ensures
            s == self.states()[w as int],
    {
        self.workers[w]
    }

    /// Whether every worker has terminated.
    pub fn all_terminated(&self) -> (b: bool)
        ensures
            b == (forall|w: int|
                0 <= w < self.states().len() ==> #[trigger] self.states()[w]
                    == WorkerState::Terminated),
    {
        let n = self.workers.len();
        let mut w: usize = 0;
        while w < n
            invariant
                w <= n,
                n == self.states().len(),
                forall|i: int|
                    0 <= i < w ==> #[trigger] self.states()[i] == WorkerState::Terminated,
            decreases n - w,
        {
            let here = self.workers[w];
            match here {
                WorkerState::Terminated => {},
                _ => {
                    return false;
                },
            }
            w = w + 1;
        }
        true
    }

    /// Whether shutdown has run to completion: the pool is closed, the
    /// queue is drained and every worker has terminated. In that state
    /// every submitted job has completed (`lemma_shutdown_loses_nothing`).
    pub fn shutdown_complete(&self) -> (b: bool)
        ensures
            b == (!self.is_open() && self.pending().len() == 0 && (forall|w: int|
                0 <= w < self.states().len() ==> #[trigger] self.states()[w]
                    == WorkerState::Terminated)),
    {
        if self.intake {
            return false;
        }
        if self.queue.len() != 0 {
            return false;
        }
        self.all_terminated()
    }
}

/// Every submitted job is accounted for exactly once: at any well-formed
/// state, the jobs still queued, the jobs running on a worker and the jobs
/// already done add up to every job ever submitted.
pub proof fn lemma_jobs_conserved(p: ThreadPool)
    requires
        p.wf(),
    ensures
        p.completed() + p.pending().len() + running_jobs(p.states()) == p.submitted(),
{
}

/// No job runs on two workers at once: two distinct running workers hold
/// distinct tickets.
pub proof fn lemma_no_double_execution(p: ThreadPool, w1: int, w2: int)
    requires
        p.wf(),
        0 <= w1 < p.states().len(),
        0 <= w2 < p.states().len(),
        w1 != w2,
        is_running(p.states()[w1]),
        is_running(p.states()[w2]),
    ensures
        job_of(p.states()[w1]) != job_of(p.states()[w2]),
{
}

/// No job waits twice: the queue holds each ticket at no more than one
/// position, so FIFO delivery hands each ticket out once.
pub proof fn lemma_no_double_delivery(p: ThreadPool, i: int, j: int)
    requires
        p.wf(),
        0 <= i < j < p.pending().len(),
    ensures
        p.pending()[i] != p.pending()[j],
{
}

/// A job that is running is no longer queued: the queue holds no ticket
/// of any running worker, so a dequeued job cannot be delivered again.
pub proof fn lemma_running_not_queued(p: ThreadPool, w: int, i: int)
    requires
        p.wf(),
        0 <= w < p.states().len(),
        is_running(p.states()[w]),
        0 <= i < p.pending().len(),
    ensures
        p.pending()[i] != job_of(p.states()[w]),
{
}

/// Shutdown loses nothing: once the queue is drained and no worker is
/// still running — in particular when every worker has terminated — every
/// job ever submitted has run to completion.
pub proof fn lemma_shutdown_loses_nothing(p: ThreadPool)
    requires
        p.wf(),
        p.pending().len() == 0,
        forall|w: int| 0 <= w < p.states().len() ==> !is_running(#[trigger] p.states()[w]),
    ensures
        p.completed() == p.submitted(),
{
    lemma_running_none(p.states());
}

/// A crew with no running worker runs no jobs.
proof fn lemma_running_none(ws: Seq<WorkerState>)
    requires
        forall|w: int| 0 <= w < ws.len() ==> !is_running(#[trigger] ws[w]),
    ensures
        running_jobs(ws) == 0,
    decreases ws.len(),
{
    if ws.len() > 0 {
        lemma_running_none(ws.drop_last());
    }
}

/// Replacing the state of one worker moves the running count by exactly
/// the difference between the new state's and the old state's contribution.
proof fn lemma_running_update(ws: Seq<WorkerState>, w: int, s: WorkerState)
    requires
        0 <= w < ws.len(),
    ensures
        running_jobs(ws.update(w, s)) + running_one(ws[w]) == running_jobs(ws) + running_one(s),
    decreases ws.len(),
{
    let upd = ws.update(w, s);
    if w == ws.len() - 1 {
        assert(upd.drop_last() =~= ws.drop_last());
    } else {
        assert(upd.drop_last() =~= ws.drop_last().update(w, s));
        lemma_running_update(ws.drop_last(), w, s);
    }
}

/// The running count is at least the contribution of any one worker.
proof fn lemma_running_at_least(ws: Seq<WorkerState>, w: int)
    requires
        0 <= w < ws.len(),
    ensures
        running_jobs(ws) >= running_one(ws[w]),
    decreases ws.len(),
{
    if w < ws.len() - 1 {
        lemma_running_at_least(ws.drop_last(), w);
    }
}

} // verus!
