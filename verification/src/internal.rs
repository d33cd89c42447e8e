pub mod channel;
pub mod lock;
pub mod once_take;
pub mod panic_payload;
pub mod slot;
pub mod task;
pub mod worker;
pub mod worker_loop;

pub use once_take::OnceTake;
pub use panic_payload::PanicPayload;
pub use slot::{slot, SlotSetter, SlotTaker};
pub use task::{build_cancellable_task, build_uncancellable_task, ReceivePoll, Task, TaskPanicSender, TaskResultReceiver};
pub use worker::{StatusCell, WorkerFlagSnapshot, WorkerStatus};
