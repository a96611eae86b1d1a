//! Process-based parallelism: handles on anonymous shared memory, a
//! process-shared mutex built on a counting semaphore, and spawn/join of
//! forked processes.
//!
//! This crate holds the bookkeeping of those primitives and proves it: the
//! release flags that decide which copy of a handle cleans up after a fork,
//! the accounting of the semaphore that keeps lock holders exclusive, and the
//! meaning of a child's exit status.
pub mod errors;
pub mod process;
pub mod semaphore;
pub mod sharedmem;
