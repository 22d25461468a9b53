//! Constants shared by the whole core.

use vstd::prelude::*;

verus! {

/// Number of system call ids; every id lies in `0..MAX_SYSCALL_NUM`.
pub const MAX_SYSCALL_NUM: usize = 500;

/// Size of a page of virtual memory, in bytes.
pub const PAGE_SIZE: usize = 0x1000;

} // verus!
