//! The scheduling and process-control core of a single-core kernel.
//!
//! One [`task::Processor`] holds the task that owns the CPU. The dispatch loop
//! puts tasks on it ([`task::processor::run_tasks`]), the trap path counts the
//! system calls of the current task, and the process-control calls of
//! [`syscall::process`] read and change that state.
//!
//! The core decides and records; it does not touch the machine. The timer
//! value is handed in as a number. What has to be asked of an address space,
//! or stored into memory, is asked of functions of the caller. A switch of
//! contexts is named by its two ends and left to the caller to make. A task
//! that leaves the processor is handed to the caller.
//!
//! Exclusive access is a mutable borrow: whoever holds `&mut Processor` is
//! the only one to see the processor, and every borrow has ended when a
//! function of the core has returned and its answer was used.

pub mod config;
pub mod syscall;
pub mod task;
pub mod trap;
