use crate::queue::{fetches, lemma_closed_empty_queue_stops_all, Fetch};
use vstd::prelude::*;

verus! {

/// Where a worker stands in its life.
#[derive(Clone, Copy, Debug, PartialEq, Eq, Structural)]
pub enum WorkerState {
    /// Asking the queue for work, or blocked until some arrives.
    Running,
    /// Running the one job it holds.
    Executing,
    /// Told by the queue that it is closed and drained; its thread ends.
    Terminated,
}

/// The state a running worker moves to on what its fetch yielded.
pub open spec fn state_after_fetch<T>(f: Fetch<T>) -> WorkerState {
    match f {
        Fetch::Job(_) => WorkerState::Executing,
        Fetch::Closed => WorkerState::Terminated,
        Fetch::Wait => WorkerState::Running,
    }
}

/// A pool that is shut down with no job pending ends all its workers: each of
/// the `n` running workers that fetches from the closed, empty queue moves to
/// `Terminated`, none waits.
pub proof fn lemma_idle_pool_terminates<T>(n: nat)
    ensures
        forall|i: int|
            0 <= i < n ==> state_after_fetch(#[trigger] fetches(Seq::<T>::empty(), false, n)[i])
                == WorkerState::Terminated,
{
    lemma_closed_empty_queue_stops_all::<T>(n);
}

impl WorkerState {
    /// A worker starts out running.
    pub fn start() -> (r: WorkerState)
        ensures
            r == WorkerState::Running,
    {
        WorkerState::Running
    }

    /// The step a running worker takes on what its fetch yielded: a job makes
    /// it execute, the closed signal ends it, and being told to wait leaves it
    /// running. Only a running worker fetches, so none holds two jobs.
    pub fn after_fetch<T>(self, f: &Fetch<T>) -> (r: WorkerState)
        requires
            self == WorkerState::Running,
        ensures
            r == state_after_fetch(*f),
    {
        match f {
            Fetch::Job(_) => WorkerState::Executing,
            Fetch::Closed => WorkerState::Terminated,
            Fetch::Wait => WorkerState::Running,
        }
    }

    /// The step a worker takes when its job has returned, or failed: it goes
    /// back to fetching.
    pub fn after_job(self) -> (r: WorkerState)
        requires
            self == WorkerState::Executing,
        ensures
            r == WorkerState::Running,
    {
        WorkerState::Running
    }

    /// Whether the worker has ended.
    pub fn is_terminated(&self) -> (r: bool)
        ensures
            r == (*self == WorkerState::Terminated),
    {
        match self {
            WorkerState::Terminated => true,
            _ => false,
        }
    }
}

} // verus!
