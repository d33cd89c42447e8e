use async_sequential::internal::worker::WorkerJoinError;
use async_sequential::PoisonError;
use std::sync::Arc;

#[test]
fn poison_error_hands_the_state_back_for_every_cause() {
    let e = PoisonError::new(WorkerJoinError::AnyTaskPanic { panic_msg: None, poisoned_state: vec![1] });
    assert!(e.is_task_panic() && !e.is_runtime_shutdown() && !e.is_worker_aborted());
    assert_eq!(e.into_inner(), vec![1]);

    let e = PoisonError::new(WorkerJoinError::RuntimeShutdown { poisoned_state: vec![2] });
    assert!(!e.is_task_panic() && e.is_runtime_shutdown() && !e.is_worker_aborted());
    assert_eq!(e.into_inner(), vec![2]);

    let e = PoisonError::new(WorkerJoinError::WorkerAborted { poisoned_state: vec![3] });
    assert!(!e.is_task_panic() && !e.is_runtime_shutdown() && e.is_worker_aborted());
    assert_eq!(e.into_inner(), vec![3]);
}

#[test]
fn poison_error_messages() {
    let e = PoisonError::new(WorkerJoinError::AnyTaskPanic {
        panic_msg: Some(Arc::new("boom".to_string())),
        poisoned_state: (),
    });
    assert_eq!(e.message(), "a task executed by the worker panicked: boom");
    assert_eq!(e.panic_msg().as_deref().map(|s| s.as_str()), Some("boom"));

    let e = PoisonError::new(WorkerJoinError::AnyTaskPanic { panic_msg: None, poisoned_state: () });
    assert_eq!(e.message(), "a task executed by the worker panicked");

    let e = PoisonError::new(WorkerJoinError::RuntimeShutdown { poisoned_state: () });
    assert_eq!(e.message(), "the Tokio runtime was shut down");
    assert!(e.panic_msg().is_none());

    let e = PoisonError::new(WorkerJoinError::WorkerAborted { poisoned_state: () });
    assert_eq!(e.message(), "the worker was aborted");
}
