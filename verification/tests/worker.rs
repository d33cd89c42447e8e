use async_sequential::internal::worker::{WorkerFlagSnapshot, WorkerHandle, WorkerSendError, WorkerStatus};
use async_sequential::TaskSpawner;
use std::sync::Arc;
use tokio::sync::{mpsc, Mutex};

fn runtime() -> tokio::runtime::Runtime {
    tokio::runtime::Builder::new_current_thread().build().unwrap()
}

/// A handle over a queue of numbers, with a worker task that never ends.
fn handle_with_queue(rt: &tokio::runtime::Runtime) -> (WorkerHandle<u8, u32>, mpsc::UnboundedReceiver<u32>, Arc<WorkerStatus>) {
    let (tx, rx) = mpsc::unbounded_channel::<u32>();
    let status = Arc::new(WorkerStatus::new());
    let worker = rt.spawn(async { std::future::pending::<Result<(), ()>>().await });
    let handle = WorkerHandle::new(Arc::new(Mutex::new(Some(0u8))), worker, Arc::clone(&status), tx);
    (handle, rx, status)
}

#[test]
fn the_handle_and_its_spawners_queue_in_order() {
    let rt = runtime();
    let (handle, mut rx, status) = handle_with_queue(&rt);
    let spawner = TaskSpawner::new(handle.sender());
    assert!(Arc::ptr_eq(&handle.send(1).ok().unwrap(), &status));
    assert!(Arc::ptr_eq(&spawner.send(2).ok().unwrap(), &status));
    assert_eq!(rx.try_recv().ok(), Some(1));
    assert_eq!(rx.try_recv().ok(), Some(2));
    assert!(!spawner.is_unavailable());
    assert_eq!(spawner.has_panicked(), Some(false));
    assert!(!handle.has_panicked());
}

#[test]
fn closing_affects_only_the_spawners_handed_out_before() {
    let rt = runtime();
    let (mut handle, mut rx, _status) = handle_with_queue(&rt);
    let before = TaskSpawner::new(handle.sender());
    handle.close_senders();
    let after = TaskSpawner::new(handle.sender());
    assert!(before.is_unavailable());
    assert_eq!(before.has_panicked(), None);
    assert!(matches!(before.send(1), Err(WorkerSendError::TaskSenderUnavailable)));
    assert!(!after.is_unavailable());
    assert!(after.send(2).is_ok());
    assert_eq!(rx.try_recv().ok(), Some(2));
}

#[test]
fn a_closed_queue_reports_the_phase() {
    let rt = runtime();
    let (handle, rx, status) = handle_with_queue(&rt);
    let spawner = TaskSpawner::new(handle.sender());
    drop(rx);
    assert!(matches!(handle.send(1), Err(WorkerSendError::RuntimeShutdown)));
    status.set_task_panicked(Some(Arc::new("boom".to_string())));
    assert!(handle.has_panicked());
    assert_eq!(spawner.has_panicked(), Some(true));
    match spawner.send(2) {
        Err(WorkerSendError::PrevTaskPanic { panic_msg }) => {
            assert_eq!(panic_msg.as_deref().map(|m| m.as_str()), Some("boom"))
        },
        _ => panic!("expected PrevTaskPanic"),
    }
}

#[test]
fn cancelling_marks_the_status_and_closes_the_spawners() {
    let rt = runtime();
    let (handle, _rx, status) = handle_with_queue(&rt);
    let spawner = TaskSpawner::new(handle.sender());
    let parts = handle.cancel_for_join();
    assert_eq!(status.flag(), WorkerFlagSnapshot::CancelStarted);
    assert!(Arc::ptr_eq(&parts.worker_status, &status));
    assert!(spawner.is_unavailable());
}

#[test]
fn aborting_marks_the_status_and_closes_the_spawners() {
    let rt = runtime();
    let (handle, _rx, status) = handle_with_queue(&rt);
    let spawner = TaskSpawner::new(handle.sender());
    handle.abort();
    assert_eq!(status.flag(), WorkerFlagSnapshot::AbortStarted);
    assert!(spawner.is_unavailable());
}

#[test]
fn joining_leaves_the_spawners_open() {
    let rt = runtime();
    let (handle, mut rx, status) = handle_with_queue(&rt);
    let spawner = TaskSpawner::new(handle.sender());
    let _parts = handle.release_for_join();
    assert_eq!(status.flag(), WorkerFlagSnapshot::Other);
    assert!(!spawner.is_unavailable());
    assert!(spawner.send(3).is_ok());
    assert_eq!(rx.try_recv().ok(), Some(3));
    drop(spawner);
    assert!(rx.try_recv().is_err());
}
