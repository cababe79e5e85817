//! The worker pool as a state machine: a fixed set of workers, each idle,
//! busy or stopped, fed from one dispatch queue.
//!
//! The pool owns no thread. Whoever runs the workers takes each decision
//! from here: a worker that is free asks `step` what to do, runs the job it
//! is handed outside the pool, and reports its end with `finish`.

use vstd::prelude::*;
use crate::queue::{Claim, DispatchQueue, QueueClosed, QueueState};

verus! {

/// What one worker is doing.
#[derive(Clone, Copy, Debug, PartialEq, Eq, Structural)]
pub enum WorkerState {
    /// Free to claim a job.
    Idle,
    /// Running the job it claimed.
    Busy,
    /// Out of its loop for good: it found the queue closed and empty.
    Stopped,
}

/// How a job ended. The pool treats both alike.
#[derive(Clone, Copy, Debug, PartialEq, Eq, Structural)]
pub enum JobOutcome {
    Completed,
    Failed,
}

/// What a free worker does next.
#[derive(Debug, PartialEq, Eq)]
pub enum Step<J> {
    /// Run this job, then report with `finish`.
    Run(J),
    /// Nothing to do yet: wait until the pool has changed and ask again.
    Wait,
    /// Leave the loop.
    Stop,
}

/// What a pool is: its queue and the state of each of its workers.
pub struct PoolState<J> {
    pub queue: QueueState<J>,
    pub workers: Seq<WorkerState>,
}

impl<J> PoolState<J> {
    /// A pool of `size` idle workers around an open, empty queue.
    pub open spec fn fresh(size: nat) -> Self {
        PoolState {
            queue: QueueState::fresh(),
            workers: Seq::new(size, |i: int| WorkerState::Idle),
        }
    }

    /// Worker `id` exists and is in state `state`.
    pub open spec fn worker_is(self, id: int, state: WorkerState) -> bool {
        0 <= id < self.workers.len() && self.workers[id] == state
    }

    /// The pool after a submission.
    pub open spec fn execute(self, job: J) -> Self {
        PoolState { queue: self.queue.submit(job), workers: self.workers }
    }

    /// What a free worker is told, whichever worker asks.
    pub open spec fn told(self) -> Step<J> {
        match self.queue.claimed() {
            Claim::Job(job) => Step::Run(job),
            Claim::Empty => Step::Wait,
            Claim::Closed => Step::Stop,
        }
    }

    /// The state that worker `id` is in after it has asked.
    pub open spec fn told_state(self) -> WorkerState {
        match self.queue.claimed() {
            Claim::Job(_) => WorkerState::Busy,
            Claim::Empty => WorkerState::Idle,
            Claim::Closed => WorkerState::Stopped,
        }
    }

    /// The pool after idle worker `id` has asked what to do.
    pub open spec fn step(self, id: int) -> Self {
        PoolState {
            queue: self.queue.claim(),
            workers: self.workers.update(id, self.told_state()),
        }
    }

    /// The pool after busy worker `id` has reported the end of its job.
    pub open spec fn finish(self, id: int) -> Self {
        PoolState { queue: self.queue, workers: self.workers.update(id, WorkerState::Idle) }
    }

    /// The pool after its queue has been closed.
    pub open spec fn close(self) -> Self {
        PoolState { queue: self.queue.close(), workers: self.workers }
    }

    /// Every worker has left its loop.
    pub open spec fn stopped(self) -> bool {
        forall|i: int| 0 <= i < self.workers.len() ==> self.workers[i] == WorkerState::Stopped
    }

    /// What holds of every pool: it has a worker, and no worker has stopped
    /// while a job was pending or could still be submitted.
    pub open spec fn inv(self) -> bool {
        &&& self.workers.len() >= 1
        &&& forall|i: int|
            0 <= i < self.workers.len() && #[trigger] self.workers[i] == WorkerState::Stopped
                ==> self.queue.drained()
    }
}

/// A pool of a fixed number of workers that run jobs of type `J`.
pub struct WorkerQueue<J> {
    workers: Vec<WorkerState>,
    queue: DispatchQueue<J>,
}

impl<J> View for WorkerQueue<J> {
    type V = PoolState<J>;

    closed spec fn view(&self) -> PoolState<J> {
        PoolState { queue: self.queue@, workers: self.workers@ }
    }
}

impl<J> WorkerQueue<J> {
    /// The pool is in a state that a pool can reach. A new pool is, and
    /// every method keeps it so.
    pub open spec fn wf(&self) -> bool {
        self@.inv()
    }

    /// A pool of `size` workers, all idle, with an open and empty queue.
    pub fn new(size: usize) -> (pool: WorkerQueue<J>)
        requires
            size >= 1,
        ensures
            pool.wf(),
            pool@ == PoolState::<J>::fresh(size as nat),
    {
        let mut workers: Vec<WorkerState> = Vec::new();
        let mut id: usize = 0;
        while id < size
            invariant
                id <= size,
                workers@ == Seq::new(id as nat, |i: int| WorkerState::Idle),
            decreases size - id,
        {
            workers.push(WorkerState::Idle);
            id += 1;
        }
        WorkerQueue { workers, queue: DispatchQueue::new() }
    }

    /// Submits a job. Fails, and changes nothing, if and only if the pool's
    /// queue has been closed.
    pub fn execute(&mut self, job: J) -> (result: Result<(), QueueClosed>)
        ensures
            old(self).wf() ==> final(self).wf(),
            final(self)@ == old(self)@.execute(job),
            result is Err <==> old(self)@.queue.closed,
    {
        self.queue.submit(job)
    }

    /// Idle worker `id` asks what to do next. It is handed the oldest
    /// pending job and becomes busy; or it is told to wait, while the queue
    /// is empty and open; or it is told to stop, once the queue is empty
    /// and closed, and is stopped from then on.
    pub fn step(&mut self, id: usize) -> (step: Step<J>)
        requires
            old(self)@.worker_is(id as int, WorkerState::Idle),
        ensures
            old(self).wf() ==> final(self).wf(),
            step == old(self)@.told(),
            final(self)@ == old(self)@.step(id as int),
    {
        match self.queue.claim() {
            Claim::Job(job) => {
                self.workers.set(id, WorkerState::Busy);
                Step::Run(job)
            },
            Claim::Empty => {
                assert(self.workers@ == old(self).workers@.update(id as int, WorkerState::Idle));
                Step::Wait
            },
            Claim::Closed => {
                self.workers.set(id, WorkerState::Stopped);
                Step::Stop
            },
        }
    }

    /// Busy worker `id` reports that its job is over. Whether the job
    /// completed or failed, the worker is idle again and nothing else
    /// changes: a failed job is neither run again nor reported to anyone.
    pub fn finish(&mut self, id: usize, outcome: JobOutcome)
        requires
            old(self)@.worker_is(id as int, WorkerState::Busy),
        ensures
            old(self).wf() ==> final(self).wf(),
            final(self)@ == old(self)@.finish(id as int),
    {
        match outcome {
            JobOutcome::Completed | JobOutcome::Failed => {
                self.workers.set(id, WorkerState::Idle);
            },
        }
    }

    /// Closes the pool's queue: no later submission succeeds, and the
    /// workers stop once they have drained what is pending.
    pub fn close(&mut self)
        ensures
            old(self).wf() ==> final(self).wf(),
            final(self)@ == old(self)@.close(),
    {
        self.queue.close();
    }

    /// The number of workers, fixed when the pool was made.
    pub fn size(&self) -> (n: usize)
        ensures
            n == self@.workers.len(),
    {
        self.workers.len()
    }

    /// The state of worker `id`, or `None` if the pool has no such worker.
    pub fn worker(&self, id: usize) -> (state: Option<WorkerState>)
        ensures
            id < self@.workers.len() ==> state == Some(self@.workers[id as int]),
            id >= self@.workers.len() ==> state is None,
    {
        if id < self.workers.len() {
            Some(self.workers[id])
        } else {
            None
        }
    }

    /// The number of jobs that wait for a worker.
    pub fn pending(&self) -> (n: usize)
        ensures
            n == self@.queue.pending.len(),
    {
        self.queue.len()
    }

    /// Whether the pool's queue has been closed.
    pub fn is_closed(&self) -> (closed: bool)
        ensures
            closed == self@.queue.closed,
    {
        self.queue.is_closed()
    }

    /// Whether every worker has stopped. In a pool that is in a reachable
    /// state the queue is then closed and nothing is pending in it.
    pub fn is_stopped(&self) -> (stopped: bool)
        ensures
            stopped == self@.stopped(),
            stopped && self.wf() ==> self@.queue.drained(),
    {
        let mut id: usize = 0;
        while id < self.workers.len()
            invariant
                id <= self.workers@.len(),
                forall|i: int| 0 <= i < id ==> self.workers@[i] == WorkerState::Stopped,
            decreases self.workers@.len() - id,
        {
            if self.workers[id] != WorkerState::Stopped {
                return false;
            }
            id += 1;
        }
        assert(self.wf() ==> self.workers@[0] == WorkerState::Stopped);
        true
    }
}

} // verus!
