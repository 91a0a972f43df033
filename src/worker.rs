use vstd::prelude::*;

verus! {

/// Where a worker stands in its lifecycle:
/// `Starting -> Running -> Exiting -> Joined`.
#[derive(Clone, Copy, Debug, PartialEq, Eq, Structural)]
pub enum WorkerPhase {
    /// Created; its thread has not reported in yet.
    Starting,
    /// Taking and running jobs.
    Running,
    /// Saw the queue closed and drained; its thread is ending.
    Exiting,
    /// Its thread has been joined by the pool.
    Joined,
}

/// A diagnostic event, as handed to an event sink with the worker's id.
#[derive(Clone, Copy, Debug, PartialEq, Eq, Structural)]
pub enum Event {
    JobStart,
    JobEnd,
    JobPanicked,
    ShutdownBegin,
    WorkerExited,
}

/// The bookkeeping of one worker: its stable id, its phase, and whether it
/// is in the middle of running a job.
#[derive(Clone, Copy, Debug, PartialEq, Eq, Structural)]
pub struct Worker {
    pub id: usize,
    pub phase: WorkerPhase,
    pub busy: bool,
}

impl Worker {
    /// A worker numbered `id` whose thread has not started yet.
    pub fn new(id: usize) -> (r: Worker)
        ensures
            r == (Worker { id, phase: WorkerPhase::Starting, busy: false }),
    {
        Worker { id, phase: WorkerPhase::Starting, busy: false }
    }

    /// Whether the worker may take a job: running and not busy.
    pub fn is_idle(&self) -> (r: bool)
        ensures
            r == (self.phase == WorkerPhase::Running && !self.busy),
    {
        self.phase == WorkerPhase::Running && !self.busy
    }
}

/// Number of workers in `ws` that are running a job.
pub open spec fn busy_count(ws: Seq<Worker>) -> nat
    decreases ws.len(),
{
    if ws.len() == 0 {
        0
    } else {
        busy_count(ws.drop_last()) + if ws.last().busy { 1nat } else { 0nat }
    }
}

/// Replacing one worker changes the busy count by the difference of the
/// two workers' busy flags.
pub proof fn lemma_busy_count_update(ws: Seq<Worker>, i: int, w: Worker)
    requires
        0 <= i < ws.len(),
    ensures
        busy_count(ws.update(i, w)) + (if ws[i].busy { 1int } else { 0int })
            == busy_count(ws) + (if w.busy { 1int } else { 0int }),
    decreases ws.len(),
{
    let u = ws.update(i, w);
    if i == ws.len() - 1 {
        assert(u.drop_last() =~= ws.drop_last());
    } else {
        lemma_busy_count_update(ws.drop_last(), i, w);
        assert(u.drop_last() =~= ws.drop_last().update(i, w));
    }
}

/// With no worker busy the busy count is zero.
pub proof fn lemma_busy_count_zero(ws: Seq<Worker>)
    requires
        forall|i: int| 0 <= i < ws.len() ==> !(#[trigger] ws[i]).busy,
    ensures
        busy_count(ws) == 0,
    decreases ws.len(),
{
    if ws.len() > 0 {
        lemma_busy_count_zero(ws.drop_last());
    }
}

} // verus!
