# async_sequential

A worker that runs asynchronous and blocking tasks sequentially on a shared
mutable state on the Tokio runtime, handing the final state back once all
tasks have completed. If a task panics, later tasks fail, since the state's
invariants may have been broken by the panic.

## Layout

- `src/` is the verified library (Verus). It holds every decision the
  worker makes and the data it shares between threads:
  - `internal/worker.rs`: the worker's status (its phase and the message of
    the task that panicked) with its transitions and their laws; what a join,
    a refused task or a spawner reports; the worker handle's sending side and
    the task senders it hands out.
  - `internal/worker_loop.rs`: the decisions of the worker loop as a state
    machine, with laws over every run (no task runs after a panic, tasks run
    one at a time, only tasks taken from their cell run).
  - `internal/task.rs`: tasks, their panic senders and result receivers.
  - `task_error.rs`, `poison_error.rs`, `task_handle.rs`, `task_spawner.rs`:
    the public errors and the decisions of task handles and spawners.
  - `internal/channel.rs`, `internal/lock.rs`: the Tokio and std items used,
    declared for Verus, with the wrappers through which they are called.
- `app/` is the Tokio front end: it spawns the worker's Tokio task and drives
  `WorkerLoop`, catches panics, builds jobs from closures, and implements the
  futures and the `Display`/`Debug` impls of the public types.
- `tests/` exercises the library on concrete values.
