//! The process-control system calls.
//!
//! Each call works on the processor it is given. The timer value is handed in
//! as a number. What a call has to ask of an address space (to translate a
//! user address, to map or unmap memory, to move the end of the data
//! segment), or to store into memory, it asks of functions of the caller.
//!
//! A record for user memory is stored at the address that its first byte
//! translates to. A record that lies across a page boundary is not supported:
//! its end is not translated on its own.

use vstd::prelude::*;
use crate::config::{MAX_SYSCALL_NUM, PAGE_SIZE};
use crate::task::processor::{
    current_start_time, current_status, current_user_token, mmap_current_task,
    munmap_current_task, syscall_times, take_current_task, Processor,
};
use crate::task::task::{counts_of, TaskControlBlock, TaskStatus, TaskView};

verus! {

/// A point in time: whole seconds and the microseconds beyond them.
#[derive(Clone, Copy, Debug, PartialEq, Eq)]
pub struct TimeVal {
    /// Whole seconds.
    pub sec: usize,
    /// Microseconds beyond the whole seconds, below one million.
    pub usec: usize,
}

impl TimeVal {
    /// The record for a timer that reads `us` microseconds.
    pub open spec fn of_micros(us: usize) -> TimeVal {
        TimeVal { sec: us / 1_000_000, usec: us % 1_000_000 }
    }
}

/// The mathematical picture of a task's report.
pub struct TaskInfoView {
    /// Status of the task.
    pub status: TaskStatus,
    /// For each system call id, how often the task has entered that call.
    pub syscall_times: Seq<nat>,
    /// Milliseconds since the task was first dispatched.
    pub time: usize,
}

/// What a task is told about itself.
pub struct TaskInfo {
    /// Status of the task.
    status: TaskStatus,
    /// For each system call id, how often the task has entered that call.
    syscall_times: [u32; MAX_SYSCALL_NUM],
    /// Milliseconds since the task was first dispatched.
    time: usize,
}

impl View for TaskInfo {
    type V = TaskInfoView;

    closed spec fn view(&self) -> TaskInfoView {
        TaskInfoView {
            status: self.status,
            syscall_times: counts_of(self.syscall_times),
            time: self.time,
        }
    }
}

impl TaskInfo {
    /// Status of the task.
    pub fn status(&self) -> (status: TaskStatus)
        ensures
            status == self@.status,
    {
        self.status
    }

    /// A copy of the table of system call counters.
    pub fn syscall_times(&self) -> (times: [u32; MAX_SYSCALL_NUM])
        ensures
            counts_of(times) == self@.syscall_times,
    {
        self.syscall_times
    }

    /// Milliseconds since the task was first dispatched.
    pub fn time(&self) -> (ms: usize)
        ensures
            ms == self@.time,
    {
        self.time
    }
}

/// The report on `task` when the timer reads `us` microseconds.
pub open spec fn task_info_of(task: TaskView, us: usize) -> TaskInfoView {
    TaskInfoView {
        status: task.status,
        syscall_times: task.syscall_times,
        time: ((us - task.start_time) / 1000) as usize,
    }
}

/// The address is the first byte of a page.
pub open spec fn page_aligned(addr: usize) -> bool {
    addr % PAGE_SIZE == 0
}

/// The protection names at least one of read, write and execute (bits 0 to
/// 2) and nothing else.
pub open spec fn prot_valid(prot: usize) -> bool {
    1 <= prot <= 7
}

/// What `sys_sbrk` answers when the address space reports `old_brk`: the old
/// end of the data segment as a signed number, or `-1` where there is none.
/// An end beyond the largest signed number wraps around.
pub open spec fn sbrk_answer(old_brk: Option<usize>) -> isize {
    match old_brk {
        Some(brk) => brk as isize,
        None => -1isize,
    }
}

/// Ends the current task: it is marked `Exited`, taken off the processor and
/// handed to the caller, who discards it and switches to the dispatch loop.
/// Control must not come back to the task after that.
pub fn sys_exit(processor: &mut Processor, _exit_code: i32) -> (task: TaskControlBlock)
    requires
        old(processor)@.current is Some,
    ensures
        task@ == old(processor)@.current->0.exited(),
        final(processor)@ == old(processor)@.vacated(),
        final(processor)@.inv(),
{
    let mut task = take_current_task(processor).unwrap();
    task.exit();
    task
}

/// The current task gives the processor up: it is marked `Ready`, taken off
/// the processor and handed to the caller, who queues it again and switches
/// to the dispatch loop. The call answers `0`.
pub fn sys_yield(processor: &mut Processor) -> (ret: (isize, TaskControlBlock))
    requires
        old(processor)@.current is Some,
    ensures
        ret.0 == 0,
        ret.1@ == old(processor)@.current->0.suspended(),
        final(processor)@ == old(processor)@.vacated(),
        final(processor)@.inv(),
{
    let mut task = take_current_task(processor).unwrap();
    task.suspend();
    (0, task)
}

/// Tells the current task the time.
///
/// `us` is the timer value in microseconds. The user address `ts` is
/// translated by `translate`, which is given the handle of the task's address
/// space and `ts`; the record made of `us` is then handed to `write` with the
/// address that came back. The call answers `0`.
pub fn sys_get_time<T: FnOnce(usize, usize) -> usize, W: FnOnce(usize, TimeVal)>(
    processor: &Processor,
    ts: usize,
    _tz: usize,
    us: usize,
    translate: T,
    write: W,
) -> (ret: isize)
    requires
        processor@.current is Some,
        call_requires(translate, (processor@.current->0.user_token, ts)),
        forall|place: usize|
            call_ensures(translate, (processor@.current->0.user_token, ts), place)
                ==> call_requires(write, (place, TimeVal::of_micros(us))),
    ensures
        ret == 0,
        exists|place: usize|
            call_ensures(translate, (processor@.current->0.user_token, ts), place)
                && call_ensures(write, (place, TimeVal::of_micros(us)), ()),
{
    let place: usize = translate(current_user_token(processor), ts);
    let record = TimeVal { sec: us / 1_000_000, usec: us % 1_000_000 };
    write(place, record);
    0
}

/// Tells the current task about itself: its status, its system call
/// counters, and the milliseconds between its first dispatch and `us`, the
/// timer value in microseconds.
///
/// The user address `ti` is translated by `translate`, which is given the
/// handle of the task's address space and `ti`; the record is then handed to
/// `write` with the address that came back. The call answers `0`.
pub fn sys_task_info<T: FnOnce(usize, usize) -> usize, W: FnOnce(usize, TaskInfo)>(
    processor: &Processor,
    ti: usize,
    us: usize,
    translate: T,
    write: W,
) -> (ret: isize)
    requires
        processor@.current is Some,
        processor@.current->0.start_time <= us,
        call_requires(translate, (processor@.current->0.user_token, ti)),
        forall|place: usize, info: TaskInfo|
            call_ensures(translate, (processor@.current->0.user_token, ti), place) && info@
                == task_info_of(processor@.current->0, us) ==> call_requires(
                write,
                (place, info),
            ),
    ensures
        ret == 0,
        exists|place: usize, info: TaskInfo|
            call_ensures(translate, (processor@.current->0.user_token, ti), place) && info@
                == task_info_of(processor@.current->0, us) && call_ensures(
                write,
                (place, info),
                (),
            ),
{
    let place: usize = translate(current_user_token(processor), ti);
    let info = TaskInfo {
        status: current_status(processor),
        syscall_times: syscall_times(processor),
        time: (us - current_start_time(processor)) / 1000,
    };
    assert(info@.syscall_times =~= processor@.current->0.syscall_times);
    write(place, info);
    0
}

/// Maps `len` bytes from `start` with the protection `prot` into the address
/// space of the current task.
///
/// A `start` that is not the first byte of a page, or a `prot` that is zero
/// or has a bit beyond the lowest three, is answered with `-1`, and `map` is
/// not called. So is a call without a current task. Otherwise `map` is given
/// the handle of the address space and the request, and its answer is
/// returned.
pub fn sys_mmap<F: FnOnce(usize, usize, usize, usize) -> isize>(
    processor: &Processor,
    start: usize,
    len: usize,
    prot: usize,
    map: F,
) -> (ret: isize)
    requires
        page_aligned(start) && prot_valid(prot) ==> (processor@.current matches Some(task)
            ==> call_requires(map, (task.user_token, start, len, prot))),
    ensures
        !page_aligned(start) || !prot_valid(prot) ==> ret == -1,
        page_aligned(start) && prot_valid(prot) ==> match processor@.current {
            Some(task) => call_ensures(map, (task.user_token, start, len, prot), ret),
            None => ret == -1,
        },
{
    if start % PAGE_SIZE != 0 {
        return -1;
    }
    assert((prot & !0x7usize != 0) <==> prot > 7) by (bit_vector);
    if prot & !0x7 != 0 || prot == 0 {
        return -1;
    }
    mmap_current_task(processor, start, len, prot, map)
}

/// Unmaps `len` bytes from `start` from the address space of the current
/// task.
///
/// A `start` that is not the first byte of a page is answered with `-1`, and
/// `unmap` is not called. So is a call without a current task. Otherwise
/// `unmap` is given the handle of the address space and the request, and its
/// answer is returned.
pub fn sys_munmap<F: FnOnce(usize, usize, usize) -> isize>(
    processor: &Processor,
    start: usize,
    len: usize,
    unmap: F,
) -> (ret: isize)
    requires
        page_aligned(start) ==> (processor@.current matches Some(task) ==> call_requires(
            unmap,
            (task.user_token, start, len),
        )),
    ensures
        !page_aligned(start) ==> ret == -1,
        page_aligned(start) ==> match processor@.current {
            Some(task) => call_ensures(unmap, (task.user_token, start, len), ret),
            None => ret == -1,
        },
{
    if start % PAGE_SIZE != 0 {
        return -1;
    }
    munmap_current_task(processor, start, len, unmap)
}

/// Moves the end of the current task's data segment by `size` bytes.
///
/// The work is done by `change_program_brk`, which is given `size` and
/// answers with the old end, or with `None` where the new end would not be
/// valid. The call answers the old end, or `-1`.
pub fn sys_sbrk<F: FnOnce(i32) -> Option<usize>>(size: i32, change_program_brk: F) -> (ret: isize)
    requires
        call_requires(change_program_brk, (size,)),
    ensures
        exists|old_brk: Option<usize>|
            call_ensures(change_program_brk, (size,), old_brk) && ret == sbrk_answer(old_brk),
{
    let answer: Option<usize> = change_program_brk(size);
    let ret: isize = if let Some(old_brk) = answer {
        #[verifier::truncate]
        (old_brk as isize)
    } else {
        -1
    };
    assert(ret == sbrk_answer(answer));
    ret
}

} // verus!
