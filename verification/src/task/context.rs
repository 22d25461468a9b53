//! The saved state of a suspended control flow.

use vstd::prelude::*;

verus! {

/// Number of machine words in a saved context.
pub const TASK_CONTEXT_WORDS: usize = 14;

/// What a control flow needs to resume where it was switched out.
///
/// Word 0 is the return address, word 1 the stack pointer, and words 2 to 13
/// are the callee-saved registers. The words lie in one array, so that the
/// switch can rely on their order in memory.
///
/// A context means something only as the source or the target of a switch.
#[derive(Clone, Copy, Debug, PartialEq, Eq)]
pub struct TaskContext {
    pub regs: [usize; TASK_CONTEXT_WORDS],
}

impl TaskContext {
    /// Every word is zero.
    pub open spec fn is_zero(self) -> bool {
        forall|i: int| 0 <= i < TASK_CONTEXT_WORDS ==> self.regs@[i] == 0
    }

    /// Creates a context with every word zero.
    pub fn zero_init() -> (cx: Self)
        ensures
            cx.is_zero(),
    {
        TaskContext { regs: [0usize; TASK_CONTEXT_WORDS] }
    }
}

} // verus!
