use async_sequential::internal::PanicPayload;
use async_sequential::{TaskError, TaskErrorKind};
use std::sync::Arc;

const ALL_KINDS: [TaskErrorKind; 7] = [
    TaskErrorKind::WorkerAborted,
    TaskErrorKind::WorkerCancelled,
    TaskErrorKind::PreviousTaskPanic,
    TaskErrorKind::TaskSpawnerUnavailable,
    TaskErrorKind::TaskCancelled,
    TaskErrorKind::TaskPanic,
    TaskErrorKind::RuntimeShutdown,
];

fn predicates(kind: TaskErrorKind) -> [bool; 7] {
    [
        kind.is_worker_aborted(),
        kind.is_worker_cancelled(),
        kind.is_previous_task_panic(),
        kind.is_task_spawner_unavailable(),
        kind.is_task_cancelled(),
        kind.is_task_panic(),
        kind.is_runtime_shutdown(),
    ]
}

#[test]
fn each_kind_has_exactly_its_own_predicate() {
    for (i, kind) in ALL_KINDS.iter().enumerate() {
        let p = predicates(*kind);
        assert_eq!(p.iter().filter(|b| **b).count(), 1);
        assert!(p[i]);
    }
}

#[test]
fn kind_messages() {
    assert_eq!(TaskErrorKind::WorkerAborted.message(), "worker was aborted");
    assert_eq!(TaskErrorKind::WorkerCancelled.message(), "worker was cancelled");
    assert_eq!(TaskErrorKind::TaskSpawnerUnavailable.message(), "task spawner was unavailable");
    assert_eq!(TaskErrorKind::TaskCancelled.message(), "task was cancelled");
    assert_eq!(TaskErrorKind::PreviousTaskPanic.message(), "previous task panicked");
    assert_eq!(TaskErrorKind::TaskPanic.message(), "task panicked");
    assert_eq!(TaskErrorKind::RuntimeShutdown.message(), "the Tokio runtime was shut down");
}

fn every_error() -> Vec<TaskError<u32>> {
    vec![
        TaskError::worker_aborted(),
        TaskError::worker_cancelled(),
        TaskError::prev_task_panicked(None),
        TaskError::worker_task_sender_unavailable(),
        TaskError::task_cancelled(),
        TaskError::task_panicked(PanicPayload::new(7u32, Some("boom".to_string()))),
        TaskError::runtime_shutdown(),
    ]
}

#[test]
fn constructors_give_their_kind() {
    let kinds: Vec<TaskErrorKind> = every_error().iter().map(|e| e.kind()).collect();
    assert_eq!(kinds, ALL_KINDS.to_vec());
}

#[test]
fn an_error_is_a_cancellation_exactly_when_not_a_panic() {
    for e in every_error() {
        assert_eq!(e.is_cancelled(), !e.is_panic());
        assert_eq!(e.is_panic(), e.kind() == TaskErrorKind::TaskPanic);
    }
}

#[test]
fn try_into_panic_gives_the_payload_of_a_panic_only() {
    for e in every_error() {
        let kind = e.kind();
        match e.try_into_panic() {
            Ok(payload) => {
                assert_eq!(kind, TaskErrorKind::TaskPanic);
                assert_eq!(payload, 7);
            },
            Err(e) => {
                assert_ne!(kind, TaskErrorKind::TaskPanic);
                assert_eq!(e.kind(), kind);
            },
        }
    }
}

#[test]
fn into_panic_gives_the_payload() {
    let e: TaskError<&str> = TaskError::task_panicked(PanicPayload::new("payload", None));
    assert_eq!(e.into_panic(), "payload");
}

#[test]
fn messages_carry_the_panic_message() {
    let e: TaskError<u32> = TaskError::task_panicked(PanicPayload::new(1, Some("boom".to_string())));
    assert_eq!(e.message(), "task panicked: boom");
    assert_eq!(e.panic_msg(), Some("boom"));

    let e: TaskError<u32> = TaskError::task_panicked(PanicPayload::new(1, None));
    assert_eq!(e.message(), "task panicked");
    assert_eq!(e.panic_msg(), None);

    let e: TaskError<u32> = TaskError::prev_task_panicked(Some(Arc::new("earlier".to_string())));
    assert_eq!(e.message(), "previous task panicked: earlier");
    assert_eq!(e.panic_msg(), Some("earlier"));

    let e: TaskError<u32> = TaskError::prev_task_panicked(None);
    assert_eq!(e.message(), "previous task panicked");

    let e: TaskError<u32> = TaskError::runtime_shutdown();
    assert_eq!(e.message(), "the Tokio runtime was shut down");
    assert_eq!(e.panic_msg(), None);
}

#[test]
fn panic_payload_keeps_payload_and_message() {
    let p = PanicPayload::new(vec![1, 2], Some("msg".to_string()));
    assert_eq!(p.as_str(), Some("msg"));
    assert_eq!(p.into_inner(), vec![1, 2]);

    let p = PanicPayload::new(0u8, None);
    assert_eq!(p.as_str(), None);
}
