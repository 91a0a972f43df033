use vstd::prelude::*;
use crate::queue::{JobQueue, Received};
use crate::worker::{Event, Worker, WorkerPhase, busy_count, lemma_busy_count_update, lemma_busy_count_zero};

verus! {

/// The failures that the pool reports to its caller.
#[derive(Clone, Copy, Debug, PartialEq, Eq, Structural)]
pub enum PoolError {
    /// A pool of zero workers was asked for.
    InvalidSize,
    /// A job was submitted after shutdown began; it was not queued.
    SubmitAfterShutdown,
}

/// The state of a pool of `size` workers that share one job queue.
///
/// Besides the executable state it keeps a ghost ledger: every job ever
/// accepted, in order; every job handed to a worker, in order; and how many
/// handed jobs have finished running.
pub struct ThreadPool<J> {
    size: usize,
    workers: Vec<Worker>,
    queue: JobQueue<J>,
    shutdown_started: bool,
    accepted: Ghost<Seq<J>>,
    handed: Ghost<Seq<J>>,
    finished: Ghost<nat>,
}

impl<J> ThreadPool<J> {
    pub closed spec fn spec_size(&self) -> nat {
        self.size as nat
    }

    pub closed spec fn workers_spec(&self) -> Seq<Worker> {
        self.workers@
    }

    pub closed spec fn is_shutting_down(&self) -> bool {
        self.shutdown_started
    }

    /// The jobs waiting in the queue, head first.
    pub closed spec fn pending(&self) -> Seq<J> {
        self.queue.pending()
    }

    /// Every job the pool has accepted, in order of acceptance.
    pub closed spec fn accepted(&self) -> Seq<J> {
        self.accepted@
    }

    /// Every job handed to a worker, in the order handed out.
    pub closed spec fn handed(&self) -> Seq<J> {
        self.handed@
    }

    /// How many handed jobs have finished running (normally or not).
    pub closed spec fn finished(&self) -> nat {
        self.finished@
    }

    /// The phase of worker `i`.
    pub open spec fn phase(&self, i: int) -> WorkerPhase {
        self.workers_spec()[i].phase
    }

    /// Whether worker `i` is running a job.
    pub open spec fn busy(&self, i: int) -> bool {
        self.workers_spec()[i].busy
    }

    /// Every worker has been joined.
    pub open spec fn all_joined(&self) -> bool {
        forall|i: int| 0 <= i < self.spec_size() ==> #[trigger] self.phase(i) == WorkerPhase::Joined
    }

    /// The state after `stop`: unchanged once shutdown has begun; else
    /// marked as shutting down, with the queue closed.
    pub closed spec fn after_stop(self) -> Self {
        if self.shutdown_started {
            self
        } else {
            ThreadPool { shutdown_started: true, queue: self.queue.with_closed(), ..self }
        }
    }

    /// Well-formedness: at least one worker, workers numbered by position,
    /// and the internal invariant.
    pub open spec fn wf(&self) -> bool {
        &&& self.spec_size() >= 1
        &&& self.workers_spec().len() == self.spec_size()
        &&& forall|i: int| 0 <= i < self.spec_size() ==> (#[trigger] self.workers_spec()[i]).id == i
        &&& self.inv()
    }

    /// A busy worker is running; a worker leaves `Running` only once the
    /// queue is closed and drained; the queue is closed exactly when
    /// shutdown has begun; the accepted jobs are the handed ones followed by
    /// the pending ones; and every handed job has finished or is being run
    /// by a busy worker.
    pub closed spec fn inv(&self) -> bool {
        &&& forall|i: int| 0 <= i < self.size ==> (#[trigger] self.workers@[i]).busy
            ==> self.workers@[i].phase == WorkerPhase::Running
        &&& forall|i: int| 0 <= i < self.size ==> ((#[trigger] self.workers@[i]).phase
            == WorkerPhase::Exiting || self.workers@[i].phase == WorkerPhase::Joined)
            ==> (self.queue.is_closed_spec() && self.queue.pending().len() == 0)
        &&& self.queue.is_closed_spec() == self.shutdown_started
        &&& self.accepted@ == self.handed@ + self.queue.pending()
        &&& self.finished@ + busy_count(self.workers@) == self.handed@.len()
    }

    /// A pool of `size` workers numbered `0..size`, none started yet, with
    /// an empty open queue. Fails with `InvalidSize` exactly when `size` is
    /// zero.
    pub fn new(size: usize) -> (r: Result<Self, PoolError>)
        ensures
            size == 0 <==> r == Err::<Self, PoolError>(PoolError::InvalidSize),
            size > 0 <==> r is Ok,
            r matches Ok(p) ==> {
                &&& p.wf()
                &&& p.spec_size() == size
                &&& forall|i: int| 0 <= i < size ==> #[trigger] p.workers_spec()[i]
                    == (Worker { id: i as usize, phase: WorkerPhase::Starting, busy: false })
                &&& !p.is_shutting_down()
                &&& p.pending() == Seq::<J>::empty()
                &&& p.accepted() == Seq::<J>::empty()
                &&& p.handed() == Seq::<J>::empty()
                &&& p.finished() == 0
            },
    {
        if size == 0 {
            return Err(PoolError::InvalidSize);
        }
        let mut workers: Vec<Worker> = Vec::with_capacity(size);
        let mut id: usize = 0;
        while id < size
            invariant
                id <= size,
                workers@.len() == id,
                forall|i: int| 0 <= i < id ==> #[trigger] workers@[i]
                    == (Worker { id: i as usize, phase: WorkerPhase::Starting, busy: false }),
            decreases size - id,
        {
            workers.push(Worker::new(id));
            id = id + 1;
        }
        proof {
            lemma_busy_count_zero(workers@);
        }
        let r = ThreadPool {
            size,
            workers,
            queue: JobQueue::new(),
            shutdown_started: false,
            accepted: Ghost(Seq::empty()),
            handed: Ghost(Seq::empty()),
            finished: Ghost(0),
        };
        assert(r.accepted@ =~= r.handed@ + r.queue.pending());
        Ok(r)
    }

    /// Worker `id`'s thread reports in: `Starting` becomes `Running`.
    /// Returns whether the worker was starting; otherwise nothing changes.
    pub fn worker_started(&mut self, id: usize) -> (r: bool)
        requires
            old(self).wf(),
            id < old(self).spec_size(),
        ensures
            final(self).wf(),
            r == (old(self).phase(id as int) == WorkerPhase::Starting),
            r ==> final(self).workers_spec() == old(self).workers_spec().update(
                id as int,
                Worker { id, phase: WorkerPhase::Running, busy: false },
            ),
            !r ==> final(self).workers_spec() == old(self).workers_spec(),
            final(self).spec_size() == old(self).spec_size(),
            final(self).is_shutting_down() == old(self).is_shutting_down(),
            final(self).pending() == old(self).pending(),
            final(self).accepted() == old(self).accepted(),
            final(self).handed() == old(self).handed(),
            final(self).finished() == old(self).finished(),
    {
        if self.workers[id].phase == WorkerPhase::Starting {
            let w = Worker { id, phase: WorkerPhase::Running, busy: false };
            proof {
                lemma_busy_count_update(self.workers@, id as int, w);
            }
            self.workers[id] = w;
            true
        } else {
            false
        }
    }

    /// Submits `job`: queued at the tail while shutdown has not begun;
    /// afterwards rejected with `SubmitAfterShutdown` and dropped.
    pub fn execute(&mut self, job: J) -> (r: Result<(), PoolError>)
        requires
            old(self).wf(),
        ensures
            final(self).wf(),
            r == (if old(self).is_shutting_down() {
                Err::<(), PoolError>(PoolError::SubmitAfterShutdown)
            } else {
                Ok(())
            }),
            r is Ok ==> final(self).pending() == old(self).pending().push(job),
            r is Ok ==> final(self).accepted() == old(self).accepted().push(job),
            r is Err ==> final(self).pending() == old(self).pending(),
            r is Err ==> final(self).accepted() == old(self).accepted(),
            final(self).spec_size() == old(self).spec_size(),
            final(self).workers_spec() == old(self).workers_spec(),
            final(self).is_shutting_down() == old(self).is_shutting_down(),
            final(self).handed() == old(self).handed(),
            final(self).finished() == old(self).finished(),
    {
        if self.shutdown_started {
            return Err(PoolError::SubmitAfterShutdown);
        }
        let ghost g = job;
        let sent = self.queue.send(job);
        match sent {
            Ok(()) => {
                self.accepted = Ghost(self.accepted@.push(g));
                assert(self.accepted@ =~= self.handed@ + self.queue.pending());
                Ok(())
            },
            Err(_) => Err(PoolError::SubmitAfterShutdown),
        }
    }

    /// Idle worker `id` asks for work. With a job pending it takes the head
    /// job and becomes busy. With none, it waits while the queue is open,
    /// and moves to `Exiting` once the queue is closed.
    pub fn next_job(&mut self, id: usize) -> (r: Received<J>)
        requires
            old(self).wf(),
            id < old(self).spec_size(),
            old(self).phase(id as int) == WorkerPhase::Running,
            !old(self).busy(id as int),
        ensures
            final(self).wf(),
            old(self).pending().len() > 0 ==> {
                &&& r == Received::Job(old(self).pending()[0])
                &&& final(self).pending() == old(self).pending().drop_first()
                &&& final(self).handed() == old(self).handed().push(old(self).pending()[0])
                &&& final(self).workers_spec() == old(self).workers_spec().update(
                    id as int,
                    Worker { id, phase: WorkerPhase::Running, busy: true },
                )
            },
            old(self).pending().len() == 0 ==> {
                &&& final(self).pending() == old(self).pending()
                &&& final(self).handed() == old(self).handed()
            },
            (old(self).pending().len() == 0 && !old(self).is_shutting_down()) ==> {
                &&& r is Wait
                &&& final(self).workers_spec() == old(self).workers_spec()
            },
            (old(self).pending().len() == 0 && old(self).is_shutting_down()) ==> {
                &&& r is Drained
                &&& final(self).workers_spec() == old(self).workers_spec().update(
                    id as int,
                    Worker { id, phase: WorkerPhase::Exiting, busy: false },
                )
            },
            final(self).spec_size() == old(self).spec_size(),
            final(self).is_shutting_down() == old(self).is_shutting_down(),
            final(self).accepted() == old(self).accepted(),
            final(self).finished() == old(self).finished(),
    {
        let got = self.queue.recv();
        match got {
            Received::Job(job) => {
                let w = Worker { id, phase: WorkerPhase::Running, busy: true };
                proof {
                    lemma_busy_count_update(self.workers@, id as int, w);
                }
                self.workers[id] = w;
                self.handed = Ghost(self.handed@.push(job));
                assert(self.accepted@ =~= self.handed@ + self.queue.pending());
                Received::Job(job)
            },
            Received::Wait => Received::Wait,
            Received::Drained => {
                let w = Worker { id, phase: WorkerPhase::Exiting, busy: false };
                proof {
                    lemma_busy_count_update(self.workers@, id as int, w);
                }
                self.workers[id] = w;
                Received::Drained
            },
        }
    }

    /// Busy worker `id` reports that its job ended, normally or by a panic.
    /// Either way the worker stays `Running` and may take the next job.
    pub fn job_done(&mut self, id: usize, panicked: bool) -> (r: Event)
        requires
            old(self).wf(),
            id < old(self).spec_size(),
            old(self).busy(id as int),
        ensures
            final(self).wf(),
            r == (if panicked { Event::JobPanicked } else { Event::JobEnd }),
            final(self).workers_spec() == old(self).workers_spec().update(
                id as int,
                Worker { id, phase: WorkerPhase::Running, busy: false },
            ),
            final(self).finished() == old(self).finished() + 1,
            final(self).spec_size() == old(self).spec_size(),
            final(self).is_shutting_down() == old(self).is_shutting_down(),
            final(self).pending() == old(self).pending(),
            final(self).accepted() == old(self).accepted(),
            final(self).handed() == old(self).handed(),
    {
        let w = Worker { id, phase: WorkerPhase::Running, busy: false };
        proof {
            lemma_busy_count_update(self.workers@, id as int, w);
        }
        self.workers[id] = w;
        self.finished = Ghost(self.finished@ + 1);
        if panicked {
            Event::JobPanicked
        } else {
            Event::JobEnd
        }
    }

    /// Begins shutdown: marks the pool as shutting down and closes the
    /// queue, keeping the pending jobs for the workers to drain. Returns
    /// whether this call began it; a later call changes nothing.
    pub fn stop(&mut self) -> (r: bool)
        requires
            old(self).wf(),
        ensures
            final(self).wf(),
            *final(self) == old(self).after_stop(),
            r == !old(self).is_shutting_down(),
            final(self).is_shutting_down(),
            final(self).spec_size() == old(self).spec_size(),
            final(self).workers_spec() == old(self).workers_spec(),
            final(self).pending() == old(self).pending(),
            final(self).accepted() == old(self).accepted(),
            final(self).handed() == old(self).handed(),
            final(self).finished() == old(self).finished(),
    {
        if self.shutdown_started {
            return false;
        }
        self.shutdown_started = true;
        self.queue.close();
        true
    }

    /// Worker `id`'s thread has been joined: `Exiting` becomes `Joined`.
    /// Returns whether the worker was exiting; otherwise nothing changes.
    pub fn worker_joined(&mut self, id: usize) -> (r: bool)
        requires
            old(self).wf(),
            id < old(self).spec_size(),
        ensures
            final(self).wf(),
            r == (old(self).phase(id as int) == WorkerPhase::Exiting),
            r ==> final(self).workers_spec() == old(self).workers_spec().update(
                id as int,
                Worker { id, phase: WorkerPhase::Joined, busy: false },
            ),
            !r ==> final(self).workers_spec() == old(self).workers_spec(),
            final(self).spec_size() == old(self).spec_size(),
            final(self).is_shutting_down() == old(self).is_shutting_down(),
            final(self).pending() == old(self).pending(),
            final(self).accepted() == old(self).accepted(),
            final(self).handed() == old(self).handed(),
            final(self).finished() == old(self).finished(),
    {
        if self.workers[id].phase == WorkerPhase::Exiting {
            let w = Worker { id, phase: WorkerPhase::Joined, busy: false };
            proof {
                lemma_busy_count_update(self.workers@, id as int, w);
            }
            self.workers[id] = w;
            true
        } else {
            false
        }
    }

    /// Whether every worker has been joined.
    pub fn is_terminated(&self) -> (r: bool)
        requires
            self.wf(),
        ensures
            r == self.all_joined(),
    {
        let mut i: usize = 0;
        while i < self.size
            invariant
                self.wf(),
                i <= self.size,
                forall|k: int| 0 <= k < i ==> #[trigger] self.phase(k) == WorkerPhase::Joined,
            decreases self.size - i,
        {
            if self.workers[i].phase != WorkerPhase::Joined {
                assert(self.phase(i as int) != WorkerPhase::Joined);
                return false;
            }
            i = i + 1;
        }
        true
    }

    pub fn size(&self) -> (r: usize)
        ensures
            r == self.spec_size(),
    {
        self.size
    }

    /// The bookkeeping of worker `id`.
    pub fn worker(&self, id: usize) -> (r: Worker)
        requires
            self.wf(),
            id < self.spec_size(),
        ensures
            r == self.workers_spec()[id as int],
    {
        self.workers[id]
    }

    pub fn is_stopping(&self) -> (r: bool)
        ensures
            r == self.is_shutting_down(),
    {
        self.shutdown_started
    }

    pub fn pending_len(&self) -> (r: usize)
        ensures
            r == self.pending().len(),
    {
        self.queue.len()
    }
}

/// Once every worker of a well-formed pool has been joined, shutdown has
/// begun, no job is pending, every accepted job has been handed to a worker
/// exactly once and in order of acceptance, and every one of them has
/// finished running.
pub proof fn lemma_joined_pool_is_drained<J>(p: ThreadPool<J>)
    requires
        p.wf(),
        p.all_joined(),
    ensures
        p.is_shutting_down(),
        p.pending() == Seq::<J>::empty(),
        p.handed() == p.accepted(),
        p.finished() == p.accepted().len(),
{
    assert(p.phase(0) == WorkerPhase::Joined);
    assert forall|i: int| 0 <= i < p.workers@.len() implies !(#[trigger] p.workers@[i]).busy by {
        assert(p.phase(i) == WorkerPhase::Joined);
    }
    lemma_busy_count_zero(p.workers@);
    assert(p.queue.pending() =~= Seq::<J>::empty());
    assert(p.accepted@ =~= p.handed@);
}

/// Jobs are handed to workers in the order in which they were accepted:
/// the handed jobs are a prefix of the accepted ones, and the pending jobs
/// are the rest.
pub proof fn lemma_handed_in_fifo_order<J>(p: ThreadPool<J>)
    requires
        p.wf(),
    ensures
        p.handed() == p.accepted().subrange(0, p.handed().len() as int),
        p.pending() == p.accepted().subrange(p.handed().len() as int, p.accepted().len() as int),
{
    assert(p.handed@ =~= p.accepted@.subrange(0, p.handed@.len() as int));
    assert(p.queue.pending() =~= p.accepted@.subrange(p.handed@.len() as int, p.accepted@.len() as int));
}

/// Stopping twice is the same as stopping once, and a stopped pool is
/// shutting down.
pub proof fn lemma_stop_idempotent<J>(p: ThreadPool<J>)
    ensures
        p.after_stop().after_stop() == p.after_stop(),
        p.after_stop().is_shutting_down(),
        p.after_stop().pending() == p.pending(),
        p.after_stop().accepted() == p.accepted(),
{
    p.queue.lemma_with_closed();
}

} // verus!
