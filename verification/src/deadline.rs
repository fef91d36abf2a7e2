use vstd::prelude::*;
use crate::errors::ObservlibError;

verus! {

/// How the race between the shutdown worker and the optional deadline ended,
/// as the caller observed it. With no deadline the caller waits for the
/// worker, so only `Completed` and `WorkerFailed` can reach it.
pub enum DeadlineEvent {
    /// The worker ran the coordinated shutdown to completion with this
    /// result before any deadline fired.
    Completed(Result<(), ObservlibError>),
    /// The deadline fired first. The worker is not cancelled: it keeps
    /// running in the background with no further observable outcome.
    TimedOut,
    /// The worker context failed to run the coordinated shutdown to
    /// completion at all, for this reason.
    WorkerFailed(String),
}

/// Resolves what the caller of the deadline-bounded shutdown is told: the
/// coordinator's own outcome passes through unchanged, a lost race becomes
/// the timeout error, a failed worker the join error.
pub fn resolve_async_shutdown(event: DeadlineEvent) -> (r: Result<(), ObservlibError>)
    ensures
        event matches DeadlineEvent::Completed(res) ==> r == res,
        event is TimedOut ==> r == Err::<(), ObservlibError>(ObservlibError::ShutdownTimeout),
        event matches DeadlineEvent::WorkerFailed(reason)
            ==> (r matches Err(e) && e matches ObservlibError::TaskJoin(msg) && msg@ == reason@),
{
    match event {
        DeadlineEvent::Completed(res) => res,
        DeadlineEvent::TimedOut => Err(ObservlibError::ShutdownTimeout),
        DeadlineEvent::WorkerFailed(reason) => Err(ObservlibError::TaskJoin(reason)),
    }
}

} // verus!
