//! Tasks, their saved contexts, and the processor that runs them.

pub mod context;
pub mod processor;
pub mod system;
pub mod task;

pub use context::TaskContext;
pub use processor::Processor;
pub use task::{TaskControlBlock, TaskEvent, TaskStatus, TaskView};
