//! A small async runtime core: counting semaphore, task store, executor and
//! I/O progress decisions, with their behaviour stated and proved.

pub mod num;
pub mod semaphore;
pub mod task_store;
pub mod runtime;
pub mod scheduler;
pub mod coro;
pub mod op;
pub mod op_progress;
pub mod task;
