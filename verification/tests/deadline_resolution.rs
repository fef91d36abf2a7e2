use std::time::Duration;

use observlib::DeadlineEvent;
use observlib::ObservlibError;
use observlib::aggregate_shutdown_results;
use observlib::resolve_async_shutdown;

/// A worker that takes `delay` to come up with `outcome`, raced against an
/// optional deadline the way the deadline-bounded shutdown path races its
/// worker, then resolved through the library.
fn race(
    delay: Duration,
    outcome: Result<(), ObservlibError>,
    timeout: Option<Duration>,
) -> Result<(), ObservlibError> {
    let runtime = tokio::runtime::Runtime::new().unwrap();
    runtime.block_on(async {
        let worker = async {
            tokio::time::sleep(delay).await;
            DeadlineEvent::Completed(outcome)
        };
        let event = match timeout {
            Some(limit) => match tokio::time::timeout(limit, worker).await {
                Ok(observed) => observed,
                Err(_) => DeadlineEvent::TimedOut,
            },
            None => worker.await,
        };
        resolve_async_shutdown(event)
    })
}

#[test]
fn timeout_dominance() {
    // The timer winning the race yields the distinct timeout error, never an
    // aggregate result, whatever the backends are still doing.
    let r = resolve_async_shutdown(DeadlineEvent::TimedOut);
    assert!(matches!(r, Err(ObservlibError::ShutdownTimeout)));
}

#[test]
fn no_timeout_patience() {
    // Without a deadline the caller waits the coordinator out and is handed
    // its outcome unchanged, never a timeout.
    let slow_backend_outcome =
        aggregate_shutdown_results(Err("slow".to_string()), Ok(()), Ok(()));
    let r = resolve_async_shutdown(DeadlineEvent::Completed(slow_backend_outcome));
    match r {
        Err(ObservlibError::MultipleShutdownFailures(msg)) => {
            assert_eq!(msg, "tracer provider: slow");
        },
        _ => panic!("expected the coordinator's own aggregate outcome"),
    }
}

#[test]
fn single_success_path_async() {
    let r = resolve_async_shutdown(DeadlineEvent::Completed(Ok(())));
    assert!(matches!(r, Ok(())));
}

#[test]
fn timeout_dominance_with_slow_worker() {
    // A worker that needs 200ms, raced against a 10ms deadline: the caller
    // is told about the timeout, not handed an aggregate result.
    let r = race(
        Duration::from_millis(200),
        Ok(()),
        Some(Duration::from_millis(10)),
    );
    assert!(matches!(r, Err(ObservlibError::ShutdownTimeout)));
}

#[test]
fn no_timeout_patience_with_slow_worker() {
    // The same 200ms worker with no deadline: the caller waits it out and is
    // handed its outcome, never a timeout.
    let slow_backend_outcome =
        aggregate_shutdown_results(Err("slow".to_string()), Ok(()), Ok(()));
    let r = race(Duration::from_millis(200), slow_backend_outcome, None);
    match r {
        Err(ObservlibError::MultipleShutdownFailures(msg)) => {
            assert_eq!(msg, "tracer provider: slow");
        },
        _ => panic!("expected the coordinator's own aggregate outcome"),
    }
    let r = race(Duration::from_millis(200), Ok(()), None);
    assert!(matches!(r, Ok(())));
}

#[test]
fn worker_failure_is_distinct() {
    let r = resolve_async_shutdown(DeadlineEvent::WorkerFailed("task was aborted".to_string()));
    match r {
        Err(ObservlibError::TaskJoin(msg)) => assert_eq!(msg, "task was aborted"),
        _ => panic!("expected the worker execution failure"),
    }
}
