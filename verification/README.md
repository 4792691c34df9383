# liten

The decision-making core of a small async runtime, verified with Verus.

- `src/semaphore.rs` — counting semaphore with a FIFO queue of waiters.
- `src/task_store.rs` — the bounded queue of ready tasks (crossbeam's `ArrayQueue`).
- `src/runtime.rs` — the runtime builder and worker-count rules.
- `src/scheduler.rs`, `src/coro.rs` — the decisions of the blocking executor loop
  and of the runtime's main thread, as state machines.
- `src/op.rs`, `src/op_progress.rs` — the tee operation and the progress of an
  I/O operation (io_uring, poller or blocking).
- `app/` — threads, wakers, futures and system calls around the library.
