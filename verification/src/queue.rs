//! The dispatch queue: an unbounded first-in, first-out queue of jobs that
//! can be closed once and then drains.

use vstd::prelude::*;
use std::collections::VecDeque;

verus! {

/// The error of a submission to a queue that has been closed.
#[derive(Clone, Copy, Debug, PartialEq, Eq, Structural)]
pub struct QueueClosed;

/// What a claim finds.
#[derive(Debug, PartialEq, Eq)]
pub enum Claim<J> {
    /// The oldest pending job, which now belongs to the claimant alone.
    Job(J),
    /// Nothing is pending, but the queue is open: the claimant waits.
    Empty,
    /// Nothing is pending and nothing will be: the queue is closed.
    Closed,
}

/// What a queue is: the jobs that wait, oldest first, and whether it has
/// been closed.
pub struct QueueState<J> {
    pub pending: Seq<J>,
    pub closed: bool,
}

impl<J> QueueState<J> {
    /// An open queue with nothing in it.
    pub open spec fn fresh() -> Self {
        QueueState { pending: Seq::empty(), closed: false }
    }

    /// The queue after a submission: the job goes to the tail of an open
    /// queue, and a closed queue stays as it is.
    pub open spec fn submit(self, job: J) -> Self {
        if self.closed {
            self
        } else {
            QueueState { pending: self.pending.push(job), closed: false }
        }
    }

    /// What a claim finds: the head while anything is pending, even after
    /// the close.
    pub open spec fn claimed(self) -> Claim<J> {
        if self.pending.len() > 0 {
            Claim::Job(self.pending[0])
        } else if self.closed {
            Claim::Closed
        } else {
            Claim::Empty
        }
    }

    /// The queue after a claim: without its head, if it had one.
    pub open spec fn claim(self) -> Self {
        if self.pending.len() > 0 {
            QueueState { pending: self.pending.drop_first(), closed: self.closed }
        } else {
            self
        }
    }

    /// The queue after a close: what is pending stays.
    pub open spec fn close(self) -> Self {
        QueueState { pending: self.pending, closed: true }
    }

    /// Nothing is pending and nothing can be submitted any more.
    pub open spec fn drained(self) -> bool {
        self.closed && self.pending.len() == 0
    }
}

/// A queue goes from open to closed and never back: whatever is done to a
/// closed queue, it stays closed, and it grows no more. Closing it again
/// changes nothing.
pub proof fn lemma_closed_is_final<J>(queue: QueueState<J>, job: J)
    requires
        queue.closed,
    ensures
        queue.close() == queue,
        queue.submit(job) == queue,
        queue.claim().closed,
        queue.claim().pending.len() <= queue.pending.len(),
{
}

/// First in, first out. A submission to an open queue goes to the tail. A
/// claim takes the head: the job just submitted if nothing else was
/// pending, and otherwise the same job as without the submission, so that
/// claiming and then submitting leaves the same queue as submitting and
/// then claiming.
pub proof fn lemma_fifo<J>(queue: QueueState<J>, job: J)
    requires
        !queue.closed,
    ensures
        queue.submit(job).pending == queue.pending.push(job),
        queue.pending.len() == 0 ==> queue.submit(job).claimed() == Claim::Job(job)
            && queue.submit(job).claim() == queue,
        queue.pending.len() > 0 ==> queue.submit(job).claimed() == queue.claimed()
            && queue.submit(job).claim() == queue.claim().submit(job),
{
    if queue.pending.len() == 0 {
        assert(queue.submit(job).claim().pending == queue.pending);
    } else {
        assert(queue.submit(job).claim().pending == queue.claim().submit(job).pending);
    }
}

/// A queue of jobs of type `J`, shared by every producer and every worker
/// through whoever owns it.
pub struct DispatchQueue<J> {
    pending: VecDeque<J>,
    closed: bool,
}

impl<J> View for DispatchQueue<J> {
    type V = QueueState<J>;

    closed spec fn view(&self) -> QueueState<J> {
        QueueState { pending: self.pending@, closed: self.closed }
    }
}

impl<J> DispatchQueue<J> {
    /// An open, empty queue.
    pub fn new() -> (queue: Self)
        ensures
            queue@ == QueueState::<J>::fresh(),
    {
        DispatchQueue { pending: VecDeque::new(), closed: false }
    }

    /// Puts `job` at the tail. Fails, and leaves the queue as it was, if and
    /// only if the queue has been closed.
    pub fn submit(&mut self, job: J) -> (result: Result<(), QueueClosed>)
        ensures
            final(self)@ == old(self)@.submit(job),
            result is Err <==> old(self)@.closed,
    {
        if self.closed {
            Err(QueueClosed)
        } else {
            self.pending.push_back(job);
            Ok(())
        }
    }

    /// Takes the oldest pending job, if there is one. Never blocks: on
    /// `Claim::Empty` the caller waits until the queue has changed and
    /// claims again.
    pub fn claim(&mut self) -> (claim: Claim<J>)
        ensures
            claim == old(self)@.claimed(),
            final(self)@ == old(self)@.claim(),
    {
        match self.pending.pop_front() {
            Some(job) => Claim::Job(job),
            None => if self.closed {
                Claim::Closed
            } else {
                Claim::Empty
            },
        }
    }

    /// Closes the queue. Jobs already pending stay and can still be claimed.
    /// Closing a closed queue changes nothing.
    pub fn close(&mut self)
        ensures
            final(self)@ == old(self)@.close(),
    {
        self.closed = true;
    }

    /// Whether the queue has been closed.
    pub fn is_closed(&self) -> (closed: bool)
        ensures
            closed == self@.closed,
    {
        self.closed
    }

    /// The number of pending jobs.
    pub fn len(&self) -> (n: usize)
        ensures
            n == self@.pending.len(),
    {
        self.pending.len()
    }
}

} // verus!
