use async_sequential::internal::task::{decide_receive, poll_channel, recorded_panic_msg, ChannelStep};
use async_sequential::internal::{build_cancellable_task, build_uncancellable_task, OnceTake, PanicPayload, ReceivePoll};
use async_sequential::task_handle::{cancel_when_pending, may_cancel, settle_poll, unspawned_error};
use async_sequential::internal::worker::{StatusCell, WorkerFlagSnapshot, WorkerSendError};
use async_sequential::TaskErrorKind;
use std::sync::Arc;
use std::task::{Context, Waker};
use tokio::sync::oneshot;

fn poll_kind<R, B>(p: &ReceivePoll<R, B>) -> &'static str {
    match p {
        ReceivePoll::Pending => "pending",
        ReceivePoll::Value(_) => "value",
        ReceivePoll::Panicked(_) => "panicked",
        ReceivePoll::Vanished => "vanished",
    }
}

#[test]
fn once_take_gives_its_value_once() {
    let c = OnceTake::new(5);
    assert_eq!(c.take(), Some(5));
    assert_eq!(c.take(), None);
    assert_eq!(OnceTake::<u8>::empty().take(), None);
    assert_eq!(OnceTake::from_option(Some(1)).take(), Some(1));
    assert_eq!(OnceTake::<u8>::from_option(None).take(), None);
}

#[test]
fn an_uncancellable_task_always_gives_its_job() {
    let (_tx, rx) = oneshot::channel::<u8>();
    let (task, _result) = build_uncancellable_task::<&str, u8, ()>("job", rx);
    let (job, _panic_sender) = task.take().unwrap();
    assert_eq!(job, "job");
}

#[test]
fn a_cancelled_task_gives_nothing_to_the_worker() {
    let (_tx, rx) = oneshot::channel::<u8>();
    let (task, _result, cell) = build_cancellable_task::<&str, u8, ()>("job", rx);
    assert!(cell.take().is_some());
    assert!(task.take().is_none());

    let (_tx, rx) = oneshot::channel::<u8>();
    let (task, _result, cell) = build_cancellable_task::<&str, u8, ()>("job", rx);
    assert_eq!(task.take().map(|(job, _)| job), Some("job"));
    assert!(cell.take().is_none());
}

#[test]
fn the_result_receiver_reports_value_panic_or_vanishing() {
    let mut cx = Context::from_waker(Waker::noop());

    // The value comes.
    let (tx, rx) = oneshot::channel::<u8>();
    let (task, mut result, _cell) = build_cancellable_task::<&str, u8, ()>("job", rx);
    assert_eq!(poll_kind(&result.poll(&mut cx)), "pending");
    tx.send(42).unwrap();
    match result.poll(&mut cx) {
        ReceivePoll::Value(v) => assert_eq!(v, 42),
        other => panic!("expected a value, got {}", poll_kind(&other)),
    }
    drop(task);

    // The panic comes, and wins over the value.
    let (tx, rx) = oneshot::channel::<u8>();
    let (task, mut result) = build_uncancellable_task::<&str, u8, &str>("job", rx);
    let (_job, panic_sender) = task.take().unwrap();
    tx.send(1).unwrap();
    panic_sender.send(PanicPayload::new("payload", Some("boom".to_string())));
    match result.poll(&mut cx) {
        ReceivePoll::Panicked(p) => assert_eq!(p.as_str(), Some("boom")),
        other => panic!("expected a panic, got {}", poll_kind(&other)),
    }

    // The task is dropped without running.
    let (tx, rx) = oneshot::channel::<u8>();
    let (task, mut result) = build_uncancellable_task::<&str, u8, ()>("job", rx);
    drop(task);
    drop(tx);
    assert_eq!(poll_kind(&result.poll(&mut cx)), "vanished");
    assert_eq!(poll_kind(&result.poll(&mut cx)), "vanished");
}

#[test]
fn settling_a_poll() {
    let other = StatusCell::initial();
    let r = settle_poll::<u8, ()>(ReceivePoll::Value(3), false, &other);
    assert_eq!(r.unwrap().ok(), Some(3));
    assert!(settle_poll::<u8, ()>(ReceivePoll::Pending, false, &other).is_none());

    let r = settle_poll::<u8, u8>(ReceivePoll::Panicked(PanicPayload::new(9, None)), false, &other);
    let e = r.unwrap().err().unwrap();
    assert_eq!(e.kind(), TaskErrorKind::TaskPanic);
    assert_eq!(e.into_panic(), 9);

    let vanished = |cancelled: bool, c: &StatusCell| {
        settle_poll::<u8, ()>(ReceivePoll::Vanished, cancelled, c).unwrap().err().unwrap().kind()
    };
    assert_eq!(vanished(false, &other), TaskErrorKind::RuntimeShutdown);
    assert_eq!(vanished(true, &other), TaskErrorKind::TaskCancelled);
    let aborted = StatusCell::initial().try_start(WorkerFlagSnapshot::AbortStarted).0;
    assert_eq!(vanished(false, &aborted), TaskErrorKind::WorkerAborted);
    assert_eq!(vanished(true, &aborted), TaskErrorKind::TaskCancelled);
    let cancelled = StatusCell::initial().try_start(WorkerFlagSnapshot::CancelStarted).0;
    assert_eq!(vanished(false, &cancelled), TaskErrorKind::WorkerCancelled);
    let panicked = StatusCell::initial().mark_task_panicked(Some(Arc::new("boom".to_string())));
    let e = settle_poll::<u8, ()>(ReceivePoll::Vanished, false, &panicked).unwrap().err().unwrap();
    assert_eq!(e.kind(), TaskErrorKind::PreviousTaskPanic);
    assert_eq!(e.panic_msg(), Some("boom"));
}

#[test]
fn cancel_decisions_follow_the_phase() {
    assert!(may_cancel(WorkerFlagSnapshot::Other));
    assert!(!may_cancel(WorkerFlagSnapshot::AbortStarted));
    assert!(!may_cancel(WorkerFlagSnapshot::CancelStarted));
    assert!(!may_cancel(WorkerFlagSnapshot::TaskPanicked));
    assert!(cancel_when_pending(WorkerFlagSnapshot::CancelStarted));
    assert!(!cancel_when_pending(WorkerFlagSnapshot::Other));
}

#[test]
fn unspawned_tasks_report_why() {
    let e = unspawned_error::<()>(WorkerSendError::TaskSenderUnavailable);
    assert_eq!(e.kind(), TaskErrorKind::TaskSpawnerUnavailable);
    let e = unspawned_error::<()>(WorkerSendError::RuntimeShutdown);
    assert_eq!(e.kind(), TaskErrorKind::RuntimeShutdown);
    let e = unspawned_error::<()>(WorkerSendError::PrevTaskPanic { panic_msg: Some(Arc::new("x".to_string())) });
    assert_eq!(e.kind(), TaskErrorKind::PreviousTaskPanic);
    assert_eq!(e.panic_msg(), Some("x"));
    assert!(e.is_cancelled());
}

fn payload(m: &str) -> PanicPayload<u8> {
    PanicPayload::new(7u8, Some(m.to_string()))
}

#[test]
fn a_received_panic_wins_over_a_value() {
    match decide_receive::<u8, u8>(ChannelStep::Received(payload("boom")), ChannelStep::Received(3)) {
        ReceivePoll::Panicked(p) => assert_eq!(p.as_str(), Some("boom")),
        other => panic!("expected panicked, got {}", poll_kind(&other)),
    }
    let r = decide_receive::<u8, u8>(ChannelStep::Received(payload("boom")), ChannelStep::Open);
    assert_eq!(poll_kind(&r), "panicked");
}

#[test]
fn a_value_comes_through_when_no_panic_came() {
    for panic in [ChannelStep::Open, ChannelStep::Closed, ChannelStep::Settled] {
        match decide_receive::<u8, u8>(panic, ChannelStep::Received(4)) {
            ReceivePoll::Value(v) => assert_eq!(v, 4),
            other => panic!("expected value, got {}", poll_kind(&other)),
        }
    }
}

#[test]
fn a_task_vanishes_only_when_both_channels_ended_empty() {
    fn ended<T>(closed: bool) -> ChannelStep<T> {
        if closed { ChannelStep::Closed } else { ChannelStep::Settled }
    }
    for panic_closed in [true, false] {
        for result_closed in [true, false] {
            let r = decide_receive::<u8, u8>(ended(panic_closed), ended(result_closed));
            assert_eq!(poll_kind(&r), "vanished");
        }
    }
    assert_eq!(poll_kind(&decide_receive::<u8, u8>(ChannelStep::Open, ChannelStep::Closed)), "pending");
    assert_eq!(poll_kind(&decide_receive::<u8, u8>(ChannelStep::Settled, ChannelStep::Open)), "pending");
    assert_eq!(poll_kind(&decide_receive::<u8, u8>(ChannelStep::Open, ChannelStep::Open)), "pending");
}

#[test]
fn the_recorded_message_is_the_panic_message() {
    let m = recorded_panic_msg(&payload("boom"));
    assert_eq!(m.as_deref().map(|s| s.as_str()), Some("boom"));
    assert!(recorded_panic_msg(&PanicPayload::new(1u8, None)).is_none());
}

#[test]
fn polling_a_channel_keeps_its_receiver_only_while_open() {
    let mut cx = Context::from_waker(Waker::noop());
    let (tx, rx) = oneshot::channel::<u8>();
    let mut place = Some(rx);
    assert!(matches!(poll_channel(&mut place, &mut cx), ChannelStep::Open));
    assert!(place.is_some());
    tx.send(9).unwrap();
    assert!(matches!(poll_channel(&mut place, &mut cx), ChannelStep::Received(9)));
    assert!(place.is_none());
    assert!(matches!(poll_channel(&mut place, &mut cx), ChannelStep::Settled));

    let (tx, rx) = oneshot::channel::<u8>();
    drop(tx);
    let mut place = Some(rx);
    assert!(matches!(poll_channel(&mut place, &mut cx), ChannelStep::Closed));
    assert!(place.is_none());
}
