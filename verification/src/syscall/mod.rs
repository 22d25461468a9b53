//! The system calls.

pub mod process;
