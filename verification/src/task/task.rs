//! The task control block: what the kernel records about one task.

use vstd::prelude::*;
use crate::config::MAX_SYSCALL_NUM;
use crate::task::context::TaskContext;
use crate::trap::TrapContext;

verus! {

/// Where a task stands in its life.
///
/// The core needs these three; whoever manages the tasks may come to need
/// more.
#[non_exhaustive]
#[derive(Clone, Copy, Debug, PartialEq, Eq, Structural)]
pub enum TaskStatus {
    /// May run, and waits for the processor.
    Ready,
    /// Owns the processor.
    Running,
    /// Has ended and never runs again.
    Exited,
}

/// The counters of a table, as numbers without a bound.
pub open spec fn counts_of(table: [u32; MAX_SYSCALL_NUM]) -> Seq<nat> {
    Seq::new(MAX_SYSCALL_NUM as nat, |id: int| table@[id] as nat)
}

/// The mathematical picture of a task control block.
pub struct TaskView {
    /// Where the task stands in its life.
    pub status: TaskStatus,
    /// For each system call id, how often the task has entered that call.
    pub syscall_times: Seq<nat>,
    /// Timer value at the first dispatch, `0` before it.
    pub start_time: usize,
    /// Handle of the task's address space.
    pub user_token: usize,
    /// Saved kernel-side context.
    pub task_cx: TaskContext,
    /// Saved user-side registers.
    pub trap_cx: TrapContext,
}

/// What can happen to a task between its creation and its end.
pub enum TaskEvent {
    /// The dispatch loop puts the task on the processor while the timer reads `now`.
    Dispatch { now: usize },
    /// The task enters the system call `id`.
    Syscall { id: usize },
    /// The task gives the processor up and waits again.
    Suspend,
    /// The task ends.
    Exit,
}

impl TaskView {
    /// The table of counters has one entry per system call id.
    pub open spec fn well_formed(self) -> bool {
        self.syscall_times.len() == MAX_SYSCALL_NUM
    }

    /// A task that was created and nothing more: it is ready, has never been
    /// dispatched and has entered no system call.
    pub open spec fn is_fresh(self) -> bool {
        &&& self.well_formed()
        &&& self.status == TaskStatus::Ready
        &&& self.start_time == 0
        &&& forall|id: int| 0 <= id < MAX_SYSCALL_NUM ==> self.syscall_times[id] == 0
    }

    /// The task after it was put on the processor at timer value `now`: it
    /// runs, and a start time that was still `0` becomes `now`.
    pub open spec fn dispatched(self, now: usize) -> TaskView {
        TaskView {
            status: TaskStatus::Running,
            start_time: if self.start_time == 0 {
                now
            } else {
                self.start_time
            },
            ..self
        }
    }

    /// The task after one more entry into system call `id`. An id outside the
    /// table changes nothing.
    pub open spec fn counted(self, id: usize) -> TaskView {
        if id < self.syscall_times.len() {
            TaskView {
                syscall_times: self.syscall_times.update(
                    id as int,
                    self.syscall_times[id as int] + 1,
                ),
                ..self
            }
        } else {
            self
        }
    }

    /// The task after it gave the processor up.
    pub open spec fn suspended(self) -> TaskView {
        TaskView { status: TaskStatus::Ready, ..self }
    }

    /// The task after it ended.
    pub open spec fn exited(self) -> TaskView {
        TaskView { status: TaskStatus::Exited, ..self }
    }

    /// The task after the event `ev`.
    pub open spec fn after(self, ev: TaskEvent) -> TaskView {
        match ev {
            TaskEvent::Dispatch { now } => self.dispatched(now),
            TaskEvent::Syscall { id } => self.counted(id),
            TaskEvent::Suspend => self.suspended(),
            TaskEvent::Exit => self.exited(),
        }
    }

    /// The task after the events `evs`, in their order.
    pub open spec fn after_all(self, evs: Seq<TaskEvent>) -> TaskView
        decreases evs.len(),
    {
        if evs.len() == 0 {
            self
        } else {
            self.after_all(evs.drop_last()).after(evs.last())
        }
    }
}

/// How many of the events `evs` are entries into system call `id`.
pub open spec fn entries(evs: Seq<TaskEvent>, id: usize) -> nat
    decreases evs.len(),
{
    if evs.len() == 0 {
        0
    } else if evs.last() == (TaskEvent::Syscall { id }) {
        entries(evs.drop_last(), id) + 1
    } else {
        entries(evs.drop_last(), id)
    }
}

/// The start time of a task is `0` until its first dispatch, and from then on
/// it is the timer value read at that dispatch, whatever happens to the task
/// afterwards.
///
/// `first` is the place of the first dispatch among the events `evs`, or
/// their number if there is none. A timer that reads `0` at the first
/// dispatch leaves no trace, so that case is left out.
pub proof fn lemma_start_time_is_first_dispatch(
    task: TaskView,
    evs: Seq<TaskEvent>,
    first: int,
    now: usize,
)
    requires
        task.start_time == 0,
        0 <= first <= evs.len(),
        forall|k: int| 0 <= k < first ==> !(#[trigger] evs[k] is Dispatch),
        first < evs.len() ==> evs[first] == (TaskEvent::Dispatch { now }) && now != 0,
    ensures
        forall|n: int|
            0 <= n <= first ==> (#[trigger] task.after_all(evs.take(n))).start_time == 0,
        forall|n: int|
            first < n <= evs.len() ==> (#[trigger] task.after_all(evs.take(n))).start_time
                == now,
{
    assert forall|n: int| 0 <= n <= evs.len() implies (n <= first ==> (#[trigger] task.after_all(
        evs.take(n),
    )).start_time == 0) && (first < n ==> task.after_all(evs.take(n)).start_time == now) by {
        lemma_start_time_at(task, evs, first, now, n);
    }
}

proof fn lemma_start_time_at(task: TaskView, evs: Seq<TaskEvent>, first: int, now: usize, n: int)
    requires
        task.start_time == 0,
        0 <= first <= evs.len(),
        forall|k: int| 0 <= k < first ==> !(#[trigger] evs[k] is Dispatch),
        first < evs.len() ==> evs[first] == (TaskEvent::Dispatch { now }) && now != 0,
        0 <= n <= evs.len(),
    ensures
        n <= first ==> task.after_all(evs.take(n)).start_time == 0,
        first < n ==> task.after_all(evs.take(n)).start_time == now,
    decreases n,
{
    if n > 0 {
        lemma_start_time_at(task, evs, first, now, n - 1);
        assert(evs.take(n).drop_last() =~= evs.take(n - 1));
        assert(evs.take(n).last() == evs[n - 1]);
    }
}

/// After any events, the counter of system call `id` has grown by the number
/// of entries into that call among them, and by nothing else. For a task
/// that starts fresh the counter is that number.
pub proof fn lemma_syscall_times_count_entries(task: TaskView, evs: Seq<TaskEvent>, id: usize)
    requires
        task.well_formed(),
        id < MAX_SYSCALL_NUM,
    ensures
        task.after_all(evs).well_formed(),
        task.after_all(evs).syscall_times[id as int] == task.syscall_times[id as int] + entries(
            evs,
            id,
        ),
        task.is_fresh() ==> task.after_all(evs).syscall_times[id as int] == entries(evs, id),
    decreases evs.len(),
{
    if evs.len() > 0 {
        lemma_syscall_times_count_entries(task, evs.drop_last(), id);
    }
}

/// The kernel's record of one task.
///
/// A block is never copied: whoever holds it holds the task. The address
/// space of the task is kept elsewhere; the block holds its handle and passes
/// the requests on.
pub struct TaskControlBlock {
    status: TaskStatus,
    task_cx: TaskContext,
    trap_cx: TrapContext,
    syscall_times: [u32; MAX_SYSCALL_NUM],
    start_time: usize,
    user_token: usize,
}

impl View for TaskControlBlock {
    type V = TaskView;

    closed spec fn view(&self) -> TaskView {
        TaskView {
            status: self.status,
            syscall_times: counts_of(self.syscall_times),
            start_time: self.start_time,
            user_token: self.user_token,
            task_cx: self.task_cx,
            trap_cx: self.trap_cx,
        }
    }
}

impl TaskControlBlock {
    /// The table of counters of a block has one entry per system call id.
    pub proof fn lemma_view_well_formed(&self)
        ensures
            self@.well_formed(),
    {
    }

    /// Creates the block of a new task with the address space `user_token`
    /// and the given saved contexts.
    pub fn new(user_token: usize, task_cx: TaskContext, trap_cx: TrapContext) -> (task: Self)
        ensures
            task@.is_fresh(),
            task@.user_token == user_token,
            task@.task_cx == task_cx,
            task@.trap_cx == trap_cx,
    {
        TaskControlBlock {
            status: TaskStatus::Ready,
            task_cx,
            trap_cx,
            syscall_times: [0u32; MAX_SYSCALL_NUM],
            start_time: 0,
            user_token,
        }
    }

    /// Where the task stands in its life.
    pub fn task_status(&self) -> (status: TaskStatus)
        ensures
            status == self@.status,
    {
        self.status
    }

    /// A copy of the table of system call counters.
    pub fn syscall_times(&self) -> (times: [u32; MAX_SYSCALL_NUM])
        ensures
            counts_of(times) == self@.syscall_times,
    {
        self.syscall_times
    }

    /// Counts one more entry into system call `syscall_id`.
    pub fn add_syscall_times(&mut self, syscall_id: usize)
        requires
            syscall_id < MAX_SYSCALL_NUM,
            old(self)@.syscall_times[syscall_id as int] < u32::MAX,
        ensures
            final(self)@ == old(self)@.counted(syscall_id),
    {
        let count: u32 = self.syscall_times[syscall_id];
        self.syscall_times[syscall_id] = count + 1;
        assert(self@.syscall_times =~= old(self)@.counted(syscall_id).syscall_times);
    }

    /// Timer value at the first dispatch, `0` before it.
    pub fn start_time(&self) -> (us: usize)
        ensures
            us == self@.start_time,
    {
        self.start_time
    }

    /// Handle of the task's address space.
    pub fn get_user_token(&self) -> (token: usize)
        ensures
            token == self@.user_token,
    {
        self.user_token
    }

    /// The saved kernel-side context.
    pub fn task_cx(&self) -> (cx: &TaskContext)
        ensures
            *cx == self@.task_cx,
    {
        &self.task_cx
    }

    /// The saved kernel-side context, to be written by a switch away from
    /// the task. Nothing else of the task changes.
    pub fn task_cx_mut(&mut self) -> (cx: &mut TaskContext)
        ensures
            *cx == old(self)@.task_cx,
            final(self)@ == (TaskView { task_cx: *final(cx), ..old(self)@ }),
    {
        &mut self.task_cx
    }

    /// The saved user-side registers.
    pub fn trap_cx(&self) -> (cx: &TrapContext)
        ensures
            *cx == self@.trap_cx,
    {
        &self.trap_cx
    }

    /// The saved user-side registers, to be changed by the trap path.
    /// Nothing else of the task changes.
    pub fn get_trap_cx(&mut self) -> (cx: &mut TrapContext)
        ensures
            *cx == old(self)@.trap_cx,
            final(self)@ == (TaskView { trap_cx: *final(cx), ..old(self)@ }),
    {
        &mut self.trap_cx
    }

    /// Asks the address space of the task to map `len` bytes from `start`
    /// with the protection `prot`. The work is done by `map`, which is given
    /// the handle of the address space and the request, and whose answer is
    /// returned.
    pub fn mmap<F: FnOnce(usize, usize, usize, usize) -> isize>(
        &self,
        start: usize,
        len: usize,
        prot: usize,
        map: F,
    ) -> (ret: isize)
        requires
            call_requires(map, (self@.user_token, start, len, prot)),
        ensures
            call_ensures(map, (self@.user_token, start, len, prot), ret),
    {
        map(self.user_token, start, len, prot)
    }

    /// Asks the address space of the task to unmap `len` bytes from `start`.
    /// The work is done by `unmap`, which is given the handle of the address
    /// space and the request, and whose answer is returned.
    pub fn munmap<F: FnOnce(usize, usize, usize) -> isize>(
        &self,
        start: usize,
        len: usize,
        unmap: F,
    ) -> (ret: isize)
        requires
            call_requires(unmap, (self@.user_token, start, len)),
        ensures
            call_ensures(unmap, (self@.user_token, start, len), ret),
    {
        unmap(self.user_token, start, len)
    }

    /// Puts the task on the processor while the timer reads `now_us`.
    pub(crate) fn dispatch(&mut self, now_us: usize)
        ensures
            final(self)@ == old(self)@.dispatched(now_us),
    {
        self.status = TaskStatus::Running;
        if self.start_time == 0 {
            self.start_time = now_us;
        }
    }

    /// Takes the task off the processor to wait again.
    pub(crate) fn suspend(&mut self)
        ensures
            final(self)@ == old(self)@.suspended(),
    {
        self.status = TaskStatus::Ready;
    }

    /// Ends the task.
    pub(crate) fn exit(&mut self)
        ensures
            final(self)@ == old(self)@.exited(),
    {
        self.status = TaskStatus::Exited;
    }
}

} // verus!
