use vstd::prelude::*;

verus! {

/// What a pool worker does with what its channel delivered.
#[derive(Clone, Copy, Debug, PartialEq, Eq, Structural)]
pub enum WorkerAction {
    /// Run the job that arrived.
    Run,
    /// The pool is shutting down: leave without running the job.
    ShutDown,
    /// The channel was closed: leave.
    Disconnected,
}

/// Round-robin choice of the worker for the next job: the worker at
/// `active_id` modulo the pool size, and the cursor to keep for the job after.
pub fn pick_worker(active_id: usize, workers: usize) -> (r: (usize, usize))
    requires
        workers > 0,
    ensures
        r.0 == active_id % workers,
        r.0 < workers,
        r.1 == r.0 + 1,
{
    let index = active_id % workers;
    (index, index + 1)
}

/// The decision of a worker when its receive returns: `received` tells
/// whether a job arrived, `running` whether the pool still runs.
pub fn worker_action(received: bool, running: bool) -> (r: WorkerAction)
    ensures
        !received ==> r == WorkerAction::Disconnected,
        received && running ==> r == WorkerAction::Run,
        received && !running ==> r == WorkerAction::ShutDown,
{
    if !received {
        WorkerAction::Disconnected
    } else if running {
        WorkerAction::Run
    } else {
        WorkerAction::ShutDown
    }
}

} // verus!
