use async_sequential::internal::worker::WorkerFlagSnapshot;
use async_sequential::internal::worker_loop::LoopEvent::{QueueClosed, TaskFinished, TaskReceived, TaskTaken};
use async_sequential::internal::worker_loop::{LoopAction, LoopEvent, TaskRunOutcome, WorkerLoop};

fn drive(events: &[LoopEvent]) -> (Vec<LoopAction>, Option<bool>) {
    let mut l = WorkerLoop::new();
    let mut actions = Vec::new();
    for e in events {
        assert!(l.accepts(*e));
        actions.push(l.step(*e));
    }
    (actions, l.ended())
}

#[test]
fn tasks_run_one_after_the_other_until_the_queue_closes() {
    let (actions, ended) = drive(&[
        TaskReceived(WorkerFlagSnapshot::Other),
        TaskTaken(true),
        TaskFinished(TaskRunOutcome::Returned),
        TaskReceived(WorkerFlagSnapshot::Other),
        TaskTaken(true),
        TaskFinished(TaskRunOutcome::Returned),
        QueueClosed,
    ]);
    assert_eq!(
        actions,
        vec![
            LoopAction::TakeTask,
            LoopAction::RunTask,
            LoopAction::ReceiveNext,
            LoopAction::TakeTask,
            LoopAction::RunTask,
            LoopAction::ReceiveNext,
            LoopAction::Stop(true),
        ]
    );
    assert_eq!(ended, Some(true));
}

#[test]
fn a_cancelled_task_is_skipped() {
    let (actions, ended) = drive(&[TaskReceived(WorkerFlagSnapshot::Other), TaskTaken(false)]);
    assert_eq!(actions, vec![LoopAction::TakeTask, LoopAction::ReceiveNext]);
    assert_eq!(ended, None);
}

#[test]
fn a_task_received_after_a_cancel_started_stops_the_loop_cleanly() {
    let (actions, ended) = drive(&[LoopEvent::TaskReceived(WorkerFlagSnapshot::CancelStarted)]);
    assert_eq!(actions, vec![LoopAction::Stop(true)]);
    assert_eq!(ended, Some(true));
}

#[test]
fn a_task_panic_stops_the_loop_and_nothing_runs_after_it() {
    let mut l = WorkerLoop::new();
    assert_eq!(l.step(TaskReceived(WorkerFlagSnapshot::Other)), LoopAction::TakeTask);
    assert_eq!(l.step(TaskTaken(true)), LoopAction::RunTask);
    assert_eq!(l.step(TaskFinished(TaskRunOutcome::Panicked)), LoopAction::ReportPanicAndStop);
    assert_eq!(l.ended(), Some(false));
    for e in [
        TaskReceived(WorkerFlagSnapshot::Other),
        QueueClosed,
        TaskTaken(true),
        TaskFinished(TaskRunOutcome::Returned),
    ] {
        assert!(!l.accepts(e));
    }
}

#[test]
fn an_unreachable_state_stops_the_loop_with_an_error() {
    let (actions, ended) = drive(&[
        TaskReceived(WorkerFlagSnapshot::TaskPanicked),
        TaskTaken(true),
        TaskFinished(TaskRunOutcome::StateUnavailable),
    ]);
    assert_eq!(actions, vec![LoopAction::TakeTask, LoopAction::RunTask, LoopAction::Stop(false)]);
    assert_eq!(ended, Some(false));
}

#[test]
fn the_loop_only_takes_the_events_of_its_phase() {
    let l = WorkerLoop::new();
    assert!(l.accepts(LoopEvent::QueueClosed));
    assert!(!l.accepts(LoopEvent::TaskTaken(true)));
    assert!(!l.accepts(LoopEvent::TaskFinished(TaskRunOutcome::Returned)));
}

#[test]
fn served_and_cancelled_tasks_in_queue_order() {
    let (actions, ended) = drive(&[
        TaskReceived(WorkerFlagSnapshot::Other),
        TaskTaken(true),
        TaskFinished(TaskRunOutcome::Returned),
        TaskReceived(WorkerFlagSnapshot::Other),
        TaskTaken(false),
        TaskReceived(WorkerFlagSnapshot::Other),
        TaskTaken(true),
        TaskFinished(TaskRunOutcome::Returned),
        QueueClosed,
    ]);
    assert_eq!(
        actions,
        vec![
            LoopAction::TakeTask,
            LoopAction::RunTask,
            LoopAction::ReceiveNext,
            LoopAction::TakeTask,
            LoopAction::ReceiveNext,
            LoopAction::TakeTask,
            LoopAction::RunTask,
            LoopAction::ReceiveNext,
            LoopAction::Stop(true),
        ]
    );
    assert_eq!(ended, Some(true));
}
