//! Runs of a pool: what is true of a pool after any sequence of
//! submissions, worker steps, job ends and closes.
//!
//! A history keeps, beside the pool's state, the jobs that were accepted,
//! the jobs that were handed to a worker and the number of jobs that ran to
//! their end. The laws below say how these relate in every reachable state.

use vstd::prelude::*;
use crate::pool::{JobOutcome, PoolState, WorkerState};
use crate::queue::Claim;

verus! {

/// One thing that happens to a pool.
pub enum Event<J> {
    /// A producer submits a job.
    Execute(J),
    /// A worker asks what to do next.
    Step(int),
    /// A worker reports the end of its job.
    Finish(int, JobOutcome),
    /// The queue is closed.
    Close,
}

/// The number of workers that are in state `state`.
pub open spec fn count(workers: Seq<WorkerState>, state: WorkerState) -> nat
    decreases workers.len(),
{
    if workers.len() == 0 {
        0
    } else {
        count(workers.drop_last(), state) + if workers.last() == state {
            1nat
        } else {
            0nat
        }
    }
}

/// The jobs that a sequence of events submits, in the order of submission.
pub open spec fn submitted<J>(events: Seq<Event<J>>) -> Seq<J>
    decreases events.len(),
{
    if events.len() == 0 {
        Seq::empty()
    } else {
        match events.last() {
            Event::Execute(job) => submitted(events.drop_last()).push(job),
            _ => submitted(events.drop_last()),
        }
    }
}

/// No event of the sequence closes the queue.
pub open spec fn never_closes<J>(events: Seq<Event<J>>) -> bool {
    forall|i: int| 0 <= i < events.len() ==> !(#[trigger] events[i] is Close)
}

/// A pool together with what has happened to it so far.
pub struct History<J> {
    /// The pool as it is now.
    pub state: PoolState<J>,
    /// The jobs whose submission succeeded, in the order of submission.
    pub accepted: Seq<J>,
    /// The jobs that were handed to a worker, in the order of the handing.
    pub started: Seq<J>,
    /// How many jobs have ended, whether they completed or failed.
    pub finished: nat,
}

impl<J> History<J> {
    /// A new pool of `size` workers, to which nothing has happened.
    pub open spec fn start(size: nat) -> Self {
        History {
            state: PoolState::fresh(size),
            accepted: Seq::empty(),
            started: Seq::empty(),
            finished: 0,
        }
    }

    /// The history after one more event. A step of a worker that is not
    /// idle, or the end of a job on a worker that is not busy, cannot happen
    /// and changes nothing.
    pub open spec fn after(self, event: Event<J>) -> Self {
        match event {
            Event::Execute(job) => History {
                state: self.state.execute(job),
                accepted: if self.state.queue.closed {
                    self.accepted
                } else {
                    self.accepted.push(job)
                },
                started: self.started,
                finished: self.finished,
            },
            Event::Step(id) => if self.state.worker_is(id, WorkerState::Idle) {
                History {
                    state: self.state.step(id),
                    accepted: self.accepted,
                    started: match self.state.queue.claimed() {
                        Claim::Job(job) => self.started.push(job),
                        _ => self.started,
                    },
                    finished: self.finished,
                }
            } else {
                self
            },
            Event::Finish(id, _) => if self.state.worker_is(id, WorkerState::Busy) {
                History {
                    state: self.state.finish(id),
                    accepted: self.accepted,
                    started: self.started,
                    finished: self.finished + 1,
                }
            } else {
                self
            },
            Event::Close => History {
                state: self.state.close(),
                accepted: self.accepted,
                started: self.started,
                finished: self.finished,
            },
        }
    }

    /// The history after a sequence of events, taken in order.
    pub open spec fn run(self, events: Seq<Event<J>>) -> Self
        decreases events.len(),
    {
        if events.len() == 0 {
            self
        } else {
            self.run(events.drop_last()).after(events.last())
        }
    }

    /// What holds of every history of a pool:
    /// the pool's own invariant;
    /// the accepted jobs are, in order, the started ones followed by the
    /// pending ones, so that no job is handed out twice and none is lost;
    /// and every started job has ended or is running on a busy worker.
    pub open spec fn consistent(self) -> bool {
        &&& self.state.inv()
        &&& self.accepted == self.started + self.state.queue.pending
        &&& self.started.len() == self.finished + count(self.state.workers, WorkerState::Busy)
    }

    /// An upper bound on the worker events that can still change a closed
    /// pool: two for each pending job, one for each running job and one for
    /// each worker that has not stopped.
    pub open spec fn work_left(self) -> nat {
        (2 * self.state.queue.pending.len() + self.state.workers.len() + count(
            self.state.workers,
            WorkerState::Busy,
        ) - count(self.state.workers, WorkerState::Stopped)) as nat
    }
}

/// Changing one worker's state moves one worker from the count of its old
/// state to the count of its new state.
proof fn lemma_count_update(workers: Seq<WorkerState>, id: int, to: WorkerState, of: WorkerState)
    requires
        0 <= id < workers.len(),
    ensures
        count(workers.update(id, to), of) + (if workers[id] == of {
            1nat
        } else {
            0nat
        }) == count(workers, of) + (if to == of {
            1nat
        } else {
            0nat
        }),
    decreases workers.len(),
{
    let updated = workers.update(id, to);
    if id == workers.len() - 1 {
        assert(updated.drop_last() == workers.drop_last());
    } else {
        assert(updated.drop_last() == workers.drop_last().update(id, to));
        lemma_count_update(workers.drop_last(), id, to, of);
    }
}

/// A count is at most the number of workers; it is zero when no worker is
/// in the state, and the number of workers when all are.
proof fn lemma_count_bounds(workers: Seq<WorkerState>, of: WorkerState)
    ensures
        count(workers, of) <= workers.len(),
        count(workers, of) == 0 <==> forall|i: int|
            0 <= i < workers.len() ==> workers[i] != of,
        count(workers, of) == workers.len() <==> forall|i: int|
            0 <= i < workers.len() ==> workers[i] == of,
    decreases workers.len(),
{
    if workers.len() > 0 {
        let front = workers.drop_last();
        lemma_count_bounds(front, of);
        assert(forall|i: int| 0 <= i < front.len() ==> front[i] == workers[i]);
        if count(workers, of) == 0 {
            assert forall|i: int| 0 <= i < workers.len() implies workers[i] != of by {
                if i < front.len() {
                    assert(front[i] != of);
                }
            }
        }
        if count(workers, of) == workers.len() {
            assert forall|i: int| 0 <= i < workers.len() implies workers[i] == of by {
                if i < front.len() {
                    assert(front[i] == of);
                }
            }
        }
    }
}

/// Every event takes a consistent history to a consistent history.
pub proof fn lemma_after_consistent<J>(h: History<J>, event: Event<J>)
    requires
        h.consistent(),
    ensures
        h.after(event).consistent(),
{
    let next = h.after(event);
    match event {
        Event::Execute(job) => {
            if !h.state.queue.closed {
                assert(next.accepted == next.started + next.state.queue.pending);
            }
        },
        Event::Step(id) => {
            if h.state.worker_is(id, WorkerState::Idle) {
                lemma_count_update(
                    h.state.workers,
                    id,
                    h.state.told_state(),
                    WorkerState::Busy,
                );
                assert(next.accepted == next.started + next.state.queue.pending);
            }
        },
        Event::Finish(id, _) => {
            if h.state.worker_is(id, WorkerState::Busy) {
                lemma_count_update(h.state.workers, id, WorkerState::Idle, WorkerState::Busy);
            }
        },
        Event::Close => {},
    }
}

/// Every run takes a consistent history to a consistent history.
pub proof fn lemma_run_consistent<J>(h: History<J>, events: Seq<Event<J>>)
    requires
        h.consistent(),
    ensures
        h.run(events).consistent(),
    decreases events.len(),
{
    if events.len() > 0 {
        lemma_run_consistent(h, events.drop_last());
        lemma_after_consistent(h.run(events.drop_last()), events.last());
    }
}

/// Exactly-once delivery. Whatever happens to a pool of any size, and in
/// whatever order: the jobs handed to workers are the first of the accepted
/// jobs, each handed out once and in the order of submission, and the rest
/// is still pending. Once every worker has stopped, every accepted job has
/// been handed out and has ended: as many jobs ran as were accepted.
pub proof fn lemma_exactly_once<J>(size: nat, events: Seq<Event<J>>)
    requires
        size >= 1,
    ensures
        ({
            let h = History::<J>::start(size).run(events);
            &&& h.state.workers.len() == size
            &&& h.accepted == h.started + h.state.queue.pending
            &&& h.started.len() == h.finished + count(h.state.workers, WorkerState::Busy)
            &&& h.accepted.no_duplicates() ==> h.started.no_duplicates()
            &&& h.state.stopped() ==> h.started == h.accepted && h.finished == h.accepted.len()
        }),
{
    let start = History::<J>::start(size);
    assert(start.accepted == start.started + start.state.queue.pending);
    lemma_count_bounds(start.state.workers, WorkerState::Busy);
    lemma_run_consistent(start, events);
    lemma_run_size(start, events);
    let h = start.run(events);
    lemma_count_bounds(h.state.workers, WorkerState::Busy);
    if h.state.stopped() {
        assert(h.state.workers[0] == WorkerState::Stopped);
        assert(h.accepted == h.started);
    }
    if h.accepted.no_duplicates() {
        assert forall|i: int, j: int|
            0 <= i < h.started.len() && 0 <= j < h.started.len() && i != j implies h.started[i]
            != h.started[j] by {
            assert(h.accepted[i] == h.started[i]);
            assert(h.accepted[j] == h.started[j]);
        }
    }
}

/// The number of workers never changes.
pub proof fn lemma_run_size<J>(h: History<J>, events: Seq<Event<J>>)
    ensures
        h.run(events).state.workers.len() == h.state.workers.len(),
    decreases events.len(),
{
    if events.len() > 0 {
        lemma_run_size(h, events.drop_last());
    }
}

/// Fault isolation. When the job of worker `id` fails, the pool goes on as
/// if it had completed: the worker is idle again, no other worker and no
/// pending job is touched, and nobody is told. A job submitted afterwards
/// is accepted if the queue is open, and the next job in line is handed to
/// whichever free worker asks first, the same worker `id` or another.
pub proof fn lemma_fault_isolation<J>(h: History<J>, id: int, job: J, free: int)
    requires
        h.consistent(),
        h.state.worker_is(id, WorkerState::Busy),
        !h.state.queue.closed,
        free == id || h.state.worker_is(free, WorkerState::Idle),
    ensures
        ({
            let failed = h.after(Event::Finish(id, JobOutcome::Failed));
            let line = h.state.queue.pending.push(job);
            let later = failed.after(Event::Execute(job)).after(Event::Step(free));
            &&& failed == h.after(Event::Finish(id, JobOutcome::Completed))
            &&& failed.state.queue == h.state.queue
            &&& failed.state.workers == h.state.workers.update(id, WorkerState::Idle)
            &&& failed.accepted == h.accepted
            &&& failed.started == h.started
            &&& later.accepted == h.accepted.push(job)
            &&& later.started == h.started.push(line[0])
            &&& later.state.worker_is(free, WorkerState::Busy)
            &&& later.state.queue.pending == line.drop_first()
        }),
{
}

/// Graceful shutdown. From the close on no submission is accepted, however
/// the pool is run afterwards, and the pool stays closed. When it then
/// reports that every worker has stopped, exactly the jobs that were
/// accepted before the close have been handed out, in their order, and all
/// of them have ended.
pub proof fn lemma_graceful_shutdown<J>(h: History<J>, events: Seq<Event<J>>)
    requires
        h.consistent(),
    ensures
        ({
            let end = h.after(Event::Close).run(events);
            &&& end.state.queue.closed
            &&& end.accepted == h.accepted
            &&& end.consistent()
            &&& end.state.stopped() ==> end.started == h.accepted && end.finished
                == h.accepted.len() && end.state.queue.pending.len() == 0
        }),
{
    let closed = h.after(Event::Close);
    lemma_after_consistent(h, Event::Close);
    lemma_run_closed(closed, events);
    lemma_run_consistent(closed, events);
    let end = closed.run(events);
    lemma_count_bounds(end.state.workers, WorkerState::Busy);
    if end.state.stopped() {
        assert(end.state.workers[0] == WorkerState::Stopped);
        assert(end.accepted == end.started);
    }
}

/// An open pool accepts every job that is submitted to it.
pub proof fn lemma_open_accepts_all<J>(h: History<J>, events: Seq<Event<J>>)
    requires
        !h.state.queue.closed,
        never_closes(events),
    ensures
        !h.run(events).state.queue.closed,
        h.run(events).accepted == h.accepted + submitted(events),
    decreases events.len(),
{
    if events.len() > 0 {
        let before = events.drop_last();
        assert(!(events[events.len() - 1] is Close));
        assert forall|i: int| 0 <= i < before.len() implies !(#[trigger] before[i] is Close) by {
            assert(before[i] == events[i]);
        }
        lemma_open_accepts_all(h, before);
    }
}

/// From submission to shutdown. Take a new pool of any size, let anything
/// happen to it but a close, then close it, then let anything happen. The
/// jobs that were accepted are exactly the jobs submitted before the
/// close. At every moment the jobs handed to workers so far are the first
/// of them, in order and each once. And when the pool reports that every
/// worker has stopped, every one of them has been handed out and has ended:
/// as many jobs ran as were submitted, whatever the number of workers.
pub proof fn lemma_submitted_jobs_all_run<J>(
    size: nat,
    before: Seq<Event<J>>,
    after: Seq<Event<J>>,
)
    requires
        size >= 1,
        never_closes(before),
    ensures
        ({
            let jobs = submitted(before);
            let end = History::<J>::start(size).run(before).after(Event::Close).run(after);
            &&& end.accepted == jobs
            &&& end.started.len() <= jobs.len()
            &&& end.started == jobs.take(end.started.len() as int)
            &&& end.state.stopped() ==> end.started == jobs && end.finished == jobs.len()
        }),
{
    let start = History::<J>::start(size);
    lemma_count_bounds(start.state.workers, WorkerState::Busy);
    assert(start.accepted == start.started + start.state.queue.pending);
    lemma_open_accepts_all(start, before);
    lemma_run_consistent(start, before);
    lemma_graceful_shutdown(start.run(before), after);
    let end = start.run(before).after(Event::Close).run(after);
    assert(end.accepted == submitted(before));
    assert(end.started == end.accepted.take(end.started.len() as int));
}

/// Progress of a shutdown. In a closed pool no event adds work, and every
/// step of an idle worker and every end of a job takes one unit of work
/// away. While a worker has not stopped, one of the two can happen; and no
/// work is left exactly when every worker has stopped. So a closed pool
/// whose workers keep going stops after `work_left` of their events.
pub proof fn lemma_shutdown_progress<J>(h: History<J>, event: Event<J>)
    requires
        h.consistent(),
        h.state.queue.closed,
    ensures
        h.after(event).work_left() <= h.work_left(),
        event matches Event::Step(id) ==> h.state.worker_is(id, WorkerState::Idle) ==> h.after(
            event,
        ).work_left() + 1 == h.work_left(),
        event matches Event::Finish(id, _) ==> h.state.worker_is(id, WorkerState::Busy)
            ==> h.after(event).work_left() + 1 == h.work_left(),
        h.work_left() == 0 <==> h.state.stopped(),
        !h.state.stopped() ==> exists|id: int|
            h.state.worker_is(id, WorkerState::Idle) || h.state.worker_is(id, WorkerState::Busy),
{
    let workers = h.state.workers;
    lemma_count_bounds(workers, WorkerState::Stopped);
    lemma_count_bounds(workers, WorkerState::Busy);
    match event {
        Event::Step(id) => {
            if h.state.worker_is(id, WorkerState::Idle) {
                lemma_count_update(workers, id, h.state.told_state(), WorkerState::Busy);
                lemma_count_update(workers, id, h.state.told_state(), WorkerState::Stopped);
                lemma_count_bounds(h.after(event).state.workers, WorkerState::Stopped);
            }
        },
        Event::Finish(id, _) => {
            if h.state.worker_is(id, WorkerState::Busy) {
                lemma_count_update(workers, id, WorkerState::Idle, WorkerState::Busy);
                lemma_count_update(workers, id, WorkerState::Idle, WorkerState::Stopped);
                lemma_count_bounds(h.after(event).state.workers, WorkerState::Stopped);
            }
        },
        _ => {},
    }
    if h.state.stopped() {
        assert(workers[0] == WorkerState::Stopped);
    } else {
        let id = choose|id: int| 0 <= id < workers.len() && workers[id] != WorkerState::Stopped;
        assert(h.state.worker_is(id, WorkerState::Idle) || h.state.worker_is(
            id,
            WorkerState::Busy,
        ));
    }
}

/// A closed pool stays closed and accepts nothing more.
pub proof fn lemma_run_closed<J>(h: History<J>, events: Seq<Event<J>>)
    requires
        h.state.queue.closed,
    ensures
        h.run(events).state.queue.closed,
        h.run(events).accepted == h.accepted,
    decreases events.len(),
{
    if events.len() > 0 {
        lemma_run_closed(h, events.drop_last());
    }
}

} // verus!
