use async_sequential::internal::worker::handle::{
    state_task_join_result, weak_send_error, weak_send_outcome, weak_send_result, worker_failure, StateTaskEnd, WeakSendOutcome, WorkerHandle,
};
use async_sequential::internal::worker::join_error::WorkerJoinError;
use async_sequential::internal::worker::Offer;
use async_sequential::internal::worker::send_error::{WorkerSendError, WorkerTaskSenderSendError};
use async_sequential::internal::worker::state::{WorkerFlagsSnapshot, WorkerState};
use async_sequential::{ExecutorJoinError, StatefulQueueJoinError, TaskQueueJoinError};
use std::borrow::Cow;
use std::sync::Arc;
use tokio::sync::mpsc;

#[test]
fn flags_are_independent_and_only_grow() {
    let s = WorkerState::new();
    let f = s.flags();
    assert!(!f.is_aborted() && !f.is_cancelled() && !f.is_joined());
    s.set_cancelled();
    let f = s.flags();
    assert!(!f.is_aborted() && f.is_cancelled() && !f.is_joined());
    s.set_joined();
    s.set_aborted();
    let f = s.flags();
    assert!(f.is_aborted() && f.is_cancelled() && f.is_joined());

    let f = WorkerFlagsSnapshot::from_bits(4);
    assert!(f.is_joined() && !f.is_aborted() && !f.is_cancelled());
}

#[test]
fn the_panic_message_is_recorded_once() {
    let s = WorkerState::new();
    assert!(s.task_panic_msg().is_none());
    assert!(s.set_task_panic_msg(Some(Arc::new("first".to_string()))).is_ok());
    let refused = s.set_task_panic_msg(Some(Arc::new("second".to_string())));
    assert_eq!(refused.err().unwrap().as_deref().map(|m| m.as_str()), Some("second"));
    assert_eq!(s.task_panic_msg().as_deref().map(|m| m.as_str()), Some("first"));
}

#[test]
fn weak_send_errors_name_the_first_cause() {
    let m = || Some(Arc::new("boom".to_string()));
    assert!(matches!(weak_send_error(&WorkerFlagsSnapshot::from_bits(7), m()), WorkerTaskSenderSendError::WorkerAborted));
    assert!(matches!(weak_send_error(&WorkerFlagsSnapshot::from_bits(6), m()), WorkerTaskSenderSendError::WorkerJoined));
    assert!(matches!(
        weak_send_error(&WorkerFlagsSnapshot::from_bits(2), m()),
        WorkerTaskSenderSendError::WorkerCancelled
    ));
    match weak_send_error(&WorkerFlagsSnapshot::from_bits(0), m()) {
        WorkerTaskSenderSendError::PrevTaskPanic { panic_msg } => {
            assert_eq!(panic_msg.as_deref().map(|m| m.as_str()), Some("boom"))
        },
        _ => panic!("expected PrevTaskPanic"),
    }
}

#[test]
fn worker_failures_name_cancel_abort_or_panic() {
    let e = worker_failure(&WorkerFlagsSnapshot::from_bits(3), Some("boom".to_string()));
    assert_eq!(e.panic_msg(), Some("worker canncelled"));
    let e = worker_failure(&WorkerFlagsSnapshot::from_bits(1), Some("boom".to_string()));
    assert_eq!(e.panic_msg(), Some("worker aborted"));
    let e = worker_failure(&WorkerFlagsSnapshot::from_bits(4), Some("boom".to_string()));
    assert_eq!(e.panic_msg(), Some("boom"));
    let e = worker_failure(&WorkerFlagsSnapshot::from_bits(0), None);
    assert_eq!(e.panic_msg(), None);
}

#[test]
fn joining_the_state_task() {
    assert_eq!(state_task_join_result(StateTaskEnd::Returned(Ok(5))).ok(), Some(5));
    let e = state_task_join_result::<u8>(StateTaskEnd::Returned(Err(WorkerJoinError::with_no_msg())))
        .err()
        .unwrap();
    assert_eq!(e.panic_msg(), None);
    let e = state_task_join_result::<u8>(StateTaskEnd::Failed(Some("boom".to_string()))).err().unwrap();
    assert_eq!(e.into_panic_msg(), Some(Cow::Owned("boom".to_string())));
    let e = state_task_join_result::<u8>(StateTaskEnd::Failed(None)).err().unwrap();
    assert!(e.into_panic_msg().is_none());
}

#[test]
fn join_errors_describe_the_panic() {
    let e = ExecutorJoinError::new(WorkerJoinError::with_msg(Cow::Borrowed("boom")));
    assert_eq!(e.message(), "task panicked: boom");
    assert_eq!(e.panic_msg(), Some("boom"));
    let e = StatefulQueueJoinError::new(WorkerJoinError::with_no_msg());
    assert_eq!(e.message(), "task panicked");
    let e = TaskQueueJoinError::new(WorkerJoinError::with_msg(Cow::Owned("late".to_string())));
    assert_eq!(e.message(), "task panicked: late");
}

#[test]
fn weak_senders_queue_while_the_queue_is_open() {
    let rt = tokio::runtime::Builder::new_current_thread().build().unwrap();
    let (tx, mut rx) = mpsc::unbounded_channel::<u32>();
    let state = Arc::new(WorkerState::new());
    let join = rt.spawn(async { Ok::<u8, WorkerJoinError>(0) });
    let abort = join.abort_handle();
    let handle = WorkerHandle::new(abort, join, Arc::clone(&state), tx);
    let weak = handle.weak_sender();
    let weak2 = weak.clone();
    assert!(Arc::ptr_eq(&handle.send(1).ok().unwrap(), &state));
    assert!(Arc::ptr_eq(&weak.send(2).ok().unwrap(), &state));
    assert_eq!(rx.try_recv().ok(), Some(1));
    assert_eq!(rx.try_recv().ok(), Some(2));

    drop(rx);
    assert!(matches!(handle.send(3), Err(WorkerSendError::PrevTaskPanic { .. })));
    let _ = handle.join_for_join();
    // The handle's queue is gone: the weak sender cannot upgrade.
    match weak2.send(4) {
        Err(WorkerTaskSenderSendError::WorkerJoined) | Err(WorkerTaskSenderSendError::PrevTaskPanic { .. }) => {},
        _ => panic!("expected the queue to be gone"),
    }
}

#[test]
fn weak_send_results_follow_the_outcome() {
    let state = Arc::new(WorkerState::new());
    assert!(Arc::ptr_eq(&weak_send_result(WeakSendOutcome::Queued, Arc::clone(&state)).ok().unwrap(), &state));
    let refused = WeakSendOutcome::Refused(WorkerFlagsSnapshot::from_bits(1), None);
    assert!(matches!(weak_send_result(refused, Arc::clone(&state)), Err(WorkerTaskSenderSendError::WorkerAborted)));
    let refused = WeakSendOutcome::Refused(WorkerFlagsSnapshot::from_bits(0), Some(Arc::new("boom".to_string())));
    match weak_send_result(refused, state) {
        Err(WorkerTaskSenderSendError::PrevTaskPanic { panic_msg }) => {
            assert_eq!(panic_msg.as_deref().map(|m| m.as_str()), Some("boom"))
        },
        _ => panic!("expected PrevTaskPanic"),
    }
}

#[test]
fn a_weak_refusal_reads_the_flags() {
    let state = WorkerState::new();
    assert!(matches!(weak_send_outcome(Offer::Queued, &state), WeakSendOutcome::Queued));
    state.set_joined();
    match weak_send_outcome(Offer::SenderClosed, &state) {
        WeakSendOutcome::Refused(flags, panic_msg) => {
            assert!(flags.is_joined());
            assert!(panic_msg.is_none());
        },
        _ => panic!("expected Refused"),
    }
}
