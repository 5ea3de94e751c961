//! Task-local storage and stack-unwinding support for a real-time robot
//! controller kernel, together with the device and task surface built on it.
//!
//! The two load-bearing pieces are the task-local storage engine
//! ([`task_local::LocalKey`], multiplexing typed per-task variables onto the
//! kernel's small fixed array of per-task pointer slots) and the ARM
//! EHABI personality routine ([`unwind::personality`], deciding per stack
//! frame whether unwinding continues, a handler is installed, or the
//! unwind fails).

pub mod addrled;
pub mod robot;
pub mod sensors;
pub mod smart_device;
pub mod task;
pub mod task_local;
pub mod unwind;
