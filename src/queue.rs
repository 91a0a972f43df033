use vstd::prelude::*;
use std::collections::VecDeque;

verus! {

/// What a receiver gets from the queue.
pub enum Received<J> {
    /// The job at the head of the queue.
    Job(J),
    /// The queue is open and empty: the receiver should wait for a `send`
    /// or a `close`.
    Wait,
    /// The queue is closed and empty: no job will ever come.
    Drained,
}

/// `send` on a closed queue hands the job back.
pub struct SendError<J>(pub J);

/// An unbounded FIFO of pending jobs with a terminal closed state.
pub struct JobQueue<J> {
    items: VecDeque<J>,
    closed: bool,
}

impl<J> JobQueue<J> {
    /// The pending jobs, head first.
    pub closed spec fn pending(&self) -> Seq<J> {
        self.items@
    }

    /// Whether the queue has been closed.
    pub closed spec fn is_closed_spec(&self) -> bool {
        self.closed
    }

    /// The same queue, closed.
    pub closed spec fn with_closed(self) -> Self {
        JobQueue { items: self.items, closed: true }
    }

    /// Closing keeps the pending jobs.
    pub proof fn lemma_with_closed(self)
        ensures
            self.with_closed().pending() == self.pending(),
            self.with_closed().is_closed_spec(),
    {
    }

    /// An empty, open queue.
    pub fn new() -> (r: Self)
        ensures
            r.pending() == Seq::<J>::empty(),
            !r.is_closed_spec(),
    {
        JobQueue { items: VecDeque::new(), closed: false }
    }

    pub fn len(&self) -> (r: usize)
        ensures
            r == self.pending().len(),
    {
        self.items.len()
    }

    pub fn is_closed(&self) -> (r: bool)
        ensures
            r == self.is_closed_spec(),
    {
        self.closed
    }

    /// Appends `job` at the tail; fails, handing the job back, only when
    /// the queue is closed.
    pub fn send(&mut self, job: J) -> (r: Result<(), SendError<J>>)
        ensures
            final(self).is_closed_spec() == old(self).is_closed_spec(),
            old(self).is_closed_spec() ==> (r == Err::<(), SendError<J>>(SendError(job))
                && final(self).pending() == old(self).pending()),
            !old(self).is_closed_spec() ==> (r is Ok
                && final(self).pending() == old(self).pending().push(job)),
    {
        if self.closed {
            Err(SendError(job))
        } else {
            self.items.push_back(job);
            Ok(())
        }
    }

    /// Takes the head job if there is one; otherwise says whether to wait
    /// (open) or to stop (closed and drained).
    pub fn recv(&mut self) -> (r: Received<J>)
        ensures
            final(self).is_closed_spec() == old(self).is_closed_spec(),
            old(self).pending().len() > 0 ==> (r == Received::Job(old(self).pending()[0])
                && final(self).pending() == old(self).pending().drop_first()),
            old(self).pending().len() == 0 ==> final(self).pending() == old(self).pending(),
            (old(self).pending().len() == 0 && old(self).is_closed_spec()) ==> r is Drained,
            (old(self).pending().len() == 0 && !old(self).is_closed_spec()) ==> r is Wait,
    {
        match self.items.pop_front() {
            Some(job) => Received::Job(job),
            None => {
                if self.closed {
                    Received::Drained
                } else {
                    Received::Wait
                }
            },
        }
    }

    /// Closes the queue. Idempotent; pending jobs stay available to `recv`.
    pub fn close(&mut self)
        ensures
            *final(self) == old(self).with_closed(),
            final(self).is_closed_spec(),
            final(self).pending() == old(self).pending(),
    {
        self.closed = true;
    }
}

} // verus!
