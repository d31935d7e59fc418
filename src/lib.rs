//! Concurrency and process-lifecycle core of a sandboxed guest runtime:
//! virtual-file capability types, a futex wait/wake registry, a waker-driven
//! readiness bridge, and thread/process lifecycle management.
pub mod compiler;
pub mod fs;
pub mod futex;
pub mod memory;
pub mod process;
pub mod readiness;
