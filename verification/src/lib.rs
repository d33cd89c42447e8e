mod executor_join_error;
pub mod internal;
mod poison_error;
mod queue_join_error;
mod task_error;
pub mod task_handle;
mod task_queue_join_error;
mod task_spawner;

pub use executor_join_error::ExecutorJoinError;
pub use poison_error::PoisonError;
pub use queue_join_error::StatefulQueueJoinError;
pub use task_error::{TaskError, TaskErrorKind};
pub use task_queue_join_error::TaskQueueJoinError;
pub use task_spawner::TaskSpawner;
