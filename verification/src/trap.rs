//! The register snapshot taken when a task enters the kernel.

use vstd::prelude::*;

verus! {

/// The user-mode registers of a task, as saved on kernel entry.
///
/// The core only carries this record; the calls that read or change single
/// registers live outside it.
#[derive(Clone, Copy, Debug, PartialEq, Eq)]
pub struct TrapContext {
    /// General registers.
    pub x: [usize; 32],
    /// Saved status word.
    pub sstatus: usize,
    /// Program counter at which user mode resumes.
    pub sepc: usize,
}

} // verus!
