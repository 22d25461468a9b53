//! The processor: which task owns the CPU, and the turns of the dispatch loop.

use vstd::prelude::*;
use crate::config::MAX_SYSCALL_NUM;
use crate::task::context::TaskContext;
use crate::task::task::{counts_of, TaskControlBlock, TaskStatus, TaskView};
use crate::trap::TrapContext;

verus! {

/// The mathematical picture of a processor.
pub struct ProcessorView {
    /// The task that owns the CPU, if any.
    pub current: Option<TaskView>,
    /// The saved context of the dispatch loop itself.
    pub idle_task_cx: TaskContext,
}

impl ProcessorView {
    /// The slot is empty, or the task in it is running.
    pub open spec fn inv(self) -> bool {
        self.current matches Some(task) ==> task.well_formed() && task.status
            == TaskStatus::Running
    }

    /// The processor after `task` was put on it at timer value `now`.
    pub open spec fn installed(self, task: TaskView, now: usize) -> ProcessorView {
        ProcessorView { current: Some(task.dispatched(now)), ..self }
    }

    /// The processor after its task left it.
    pub open spec fn vacated(self) -> ProcessorView {
        ProcessorView { current: None, ..self }
    }

    /// The processor after its task entered system call `id`. An empty
    /// processor stays as it is.
    pub open spec fn counted(self, id: usize) -> ProcessorView {
        match self.current {
            Some(task) => ProcessorView { current: Some(task.counted(id)), ..self },
            None => self,
        }
    }
}

/// The state of the one CPU: the task that owns it and the context of the
/// dispatch loop.
pub struct Processor {
    current: Option<TaskControlBlock>,
    idle_task_cx: TaskContext,
}

impl View for Processor {
    type V = ProcessorView;

    closed spec fn view(&self) -> ProcessorView {
        ProcessorView {
            current: match self.current {
                Some(task) => Some(task@),
                None => None,
            },
            idle_task_cx: self.idle_task_cx,
        }
    }
}

impl Processor {
    /// Creates a processor that runs no task; the context of the dispatch
    /// loop is all zero.
    pub fn new() -> (processor: Self)
        ensures
            processor@.current is None,
            processor@.idle_task_cx.is_zero(),
            processor@.inv(),
    {
        Processor { current: None, idle_task_cx: TaskContext::zero_init() }
    }

    /// The saved context of the dispatch loop.
    pub fn idle_task_cx(&self) -> (cx: &TaskContext)
        ensures
            *cx == self@.idle_task_cx,
    {
        &self.idle_task_cx
    }

    /// Takes the current task off the processor and hands it to the caller,
    /// as it is: a task that ran is still marked `Running`.
    pub fn take_current(&mut self) -> (task: Option<TaskControlBlock>)
        ensures
            match task {
                Some(t) => old(self)@.current == Some(t@),
                None => old(self)@.current is None,
            },
            final(self)@ == old(self)@.vacated(),
            final(self)@.inv(),
    {
        self.current.take()
    }

    /// The current task, if there is one.
    pub fn current(&self) -> (task: Option<&TaskControlBlock>)
        ensures
            match task {
                Some(t) => self@.current == Some(t@),
                None => self@.current is None,
            },
    {
        self.current.as_ref()
    }

    /// Asks the address space of the current task to map `len` bytes from
    /// `start` with the protection `prot`; see [`TaskControlBlock::mmap`].
    /// Without a current task the answer is `-1` and `map` is not called.
    pub fn mmap_current_task<F: FnOnce(usize, usize, usize, usize) -> isize>(
        &self,
        start: usize,
        len: usize,
        prot: usize,
        map: F,
    ) -> (ret: isize)
        requires
            self@.current matches Some(task) ==> call_requires(
                map,
                (task.user_token, start, len, prot),
            ),
        ensures
            match self@.current {
                Some(task) => call_ensures(map, (task.user_token, start, len, prot), ret),
                None => ret == -1,
            },
    {
        match &self.current {
            None => -1,
            Some(task) => task.mmap(start, len, prot, map),
        }
    }

    /// Asks the address space of the current task to unmap `len` bytes from
    /// `start`; see [`TaskControlBlock::munmap`]. Without a current task the
    /// answer is `-1` and `unmap` is not called.
    pub fn munmap_current_task<F: FnOnce(usize, usize, usize) -> isize>(
        &self,
        start: usize,
        len: usize,
        unmap: F,
    ) -> (ret: isize)
        requires
            self@.current matches Some(task) ==> call_requires(
                unmap,
                (task.user_token, start, len),
            ),
        ensures
            match self@.current {
                Some(task) => call_ensures(unmap, (task.user_token, start, len), ret),
                None => ret == -1,
            },
    {
        match &self.current {
            None => -1,
            Some(task) => task.munmap(start, len, unmap),
        }
    }

    /// The status of the current task.
    pub fn current_status(&self) -> (status: TaskStatus)
        requires
            self@.current is Some,
        ensures
            status == self@.current->0.status,
    {
        self.current().unwrap().task_status()
    }

    /// A copy of the current task's table of system call counters.
    pub fn syscall_times(&self) -> (times: [u32; MAX_SYSCALL_NUM])
        requires
            self@.current is Some,
        ensures
            counts_of(times) == self@.current->0.syscall_times,
    {
        self.current().unwrap().syscall_times()
    }

    /// Counts one more entry of the current task into system call
    /// `syscall_id`. Nothing but that counter changes.
    pub fn add_syscall_times(&mut self, syscall_id: usize)
        requires
            old(self)@.current is Some,
            syscall_id < MAX_SYSCALL_NUM,
            old(self)@.current->0.syscall_times[syscall_id as int] < u32::MAX,
        ensures
            final(self)@ == old(self)@.counted(syscall_id),
            old(self)@.inv() ==> final(self)@.inv(),
    {
        self.current.as_mut().unwrap().add_syscall_times(syscall_id)
    }

    /// The start time of the current task: the timer value at its first
    /// dispatch.
    pub fn start_time(&self) -> (us: usize)
        requires
            self@.current is Some,
        ensures
            us == self@.current->0.start_time,
    {
        self.current().unwrap().start_time()
    }
}

/// One turn of the dispatch loop, after the task manager was asked for the
/// next task that may run and the timer was read.
///
/// With a task in `fetched`, the task becomes the current one: it is marked
/// `Running`, and if it was never dispatched before, `now_us` becomes its
/// start time. A task that was still on the processor is dropped. The answer
/// names the switch that the loop has to make: the context to save into,
/// which is that of the loop itself, and the context to load from, which is
/// that of the task. Without a task nothing changes, and the loop has to ask
/// again.
///
/// The exclusive borrow of the processor ends with the use of the answer,
/// before the switch is made.
pub fn run_tasks<'a>(
    processor: &'a mut Processor,
    fetched: Option<TaskControlBlock>,
    now_us: usize,
) -> (switch: Option<(&'a mut TaskContext, &'a TaskContext)>)
    ensures
        match fetched {
            Some(task) => {
                &&& switch matches Some((save_into, load_from))
                &&& *save_into == old(processor)@.idle_task_cx
                &&& *load_from == task@.task_cx
                &&& final(processor)@ == (ProcessorView {
                    idle_task_cx: *final(save_into),
                    ..old(processor)@.installed(task@, now_us)
                })
            },
            None => switch is None && *final(processor) == *old(processor),
        },
        fetched is Some || old(processor)@.inv() ==> final(processor)@.inv(),
{
    match fetched {
        Some(mut task) => {
            proof {
                task.lemma_view_well_formed();
            }
            task.dispatch(now_us);
            processor.current = Some(task);
            let current = processor.current.as_ref().unwrap();
            Some((&mut processor.idle_task_cx, current.task_cx()))
        },
        None => None,
    }
}

/// The switch by which a task hands the CPU back to the dispatch loop: the
/// context to save into is `switched_task_cx`, that of the task which
/// leaves, and the context to load from is that of the loop.
pub fn schedule<'a>(processor: &'a Processor, switched_task_cx: &'a mut TaskContext) -> (switch: (
    &'a mut TaskContext,
    &'a TaskContext,
))
    ensures
        ({
            let (save_into, load_from) = switch;
            &&& *save_into == *old(switched_task_cx)
            &&& *final(switched_task_cx) == *final(save_into)
            &&& *load_from == processor@.idle_task_cx
        }),
{
    (switched_task_cx, &processor.idle_task_cx)
}

/// Takes the current task off the processor; see [`Processor::take_current`].
pub fn take_current_task(processor: &mut Processor) -> (task: Option<TaskControlBlock>)
    ensures
        match task {
            Some(t) => old(processor)@.current == Some(t@),
            None => old(processor)@.current is None,
        },
        final(processor)@ == old(processor)@.vacated(),
        final(processor)@.inv(),
{
    processor.take_current()
}

/// The current task, if there is one; see [`Processor::current`].
pub fn current_task(processor: &Processor) -> (task: Option<&TaskControlBlock>)
    ensures
        match task {
            Some(t) => processor@.current == Some(t@),
            None => processor@.current is None,
        },
{
    processor.current()
}

/// The handle of the current task's address space.
pub fn current_user_token(processor: &Processor) -> (token: usize)
    requires
        processor@.current is Some,
    ensures
        token == processor@.current->0.user_token,
{
    let task = current_task(processor).unwrap();
    task.get_user_token()
}

/// The saved user-side registers of the current task, to be changed by the
/// trap path. Nothing else of the processor or of the task changes.
pub fn current_trap_cx(processor: &mut Processor) -> (cx: &mut TrapContext)
    requires
        old(processor)@.current is Some,
    ensures
        *cx == old(processor)@.current->0.trap_cx,
        final(processor)@ == (ProcessorView {
            current: Some(TaskView { trap_cx: *final(cx), ..old(processor)@.current->0 }),
            ..old(processor)@
        }),
        old(processor)@.inv() ==> final(processor)@.inv(),
{
    processor.current.as_mut().unwrap().get_trap_cx()
}

/// Maps memory for the current task; see [`Processor::mmap_current_task`].
pub fn mmap_current_task<F: FnOnce(usize, usize, usize, usize) -> isize>(
    processor: &Processor,
    start: usize,
    len: usize,
    prot: usize,
    map: F,
) -> (ret: isize)
    requires
        processor@.current matches Some(task) ==> call_requires(
            map,
            (task.user_token, start, len, prot),
        ),
    ensures
        match processor@.current {
            Some(task) => call_ensures(map, (task.user_token, start, len, prot), ret),
            None => ret == -1,
        },
{
    processor.mmap_current_task(start, len, prot, map)
}

/// Unmaps memory of the current task; see [`Processor::munmap_current_task`].
pub fn munmap_current_task<F: FnOnce(usize, usize, usize) -> isize>(
    processor: &Processor,
    start: usize,
    len: usize,
    unmap: F,
) -> (ret: isize)
    requires
        processor@.current matches Some(task) ==> call_requires(
            unmap,
            (task.user_token, start, len),
        ),
    ensures
        match processor@.current {
            Some(task) => call_ensures(unmap, (task.user_token, start, len), ret),
            None => ret == -1,
        },
{
    processor.munmap_current_task(start, len, unmap)
}

/// The status of the current task.
pub fn current_status(processor: &Processor) -> (status: TaskStatus)
    requires
        processor@.current is Some,
    ensures
        status == processor@.current->0.status,
{
    processor.current_status()
}

/// A copy of the current task's table of system call counters.
pub fn syscall_times(processor: &Processor) -> (times: [u32; MAX_SYSCALL_NUM])
    requires
        processor@.current is Some,
    ensures
        counts_of(times) == processor@.current->0.syscall_times,
{
    processor.syscall_times()
}

/// The start time of the current task.
pub fn current_start_time(processor: &Processor) -> (us: usize)
    requires
        processor@.current is Some,
    ensures
        us == processor@.current->0.start_time,
{
    processor.start_time()
}

/// Counts one more entry of the current task into system call `syscall_id`.
/// The trap path calls this for every system call, before the call's own
/// work.
pub fn add_syscall_times(processor: &mut Processor, syscall_id: usize)
    requires
        old(processor)@.current is Some,
        syscall_id < MAX_SYSCALL_NUM,
        old(processor)@.current->0.syscall_times[syscall_id as int] < u32::MAX,
    ensures
        final(processor)@ == old(processor)@.counted(syscall_id),
        old(processor)@.inv() ==> final(processor)@.inv(),
{
    processor.add_syscall_times(syscall_id)
}

} // verus!
