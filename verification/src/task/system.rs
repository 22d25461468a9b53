//! All the tasks of one CPU, seen together.
//!
//! The processor holds at most one task. The others are outside it, with
//! whoever manages them: those that wait for their turn and those that have
//! ended. This module follows both through the turns that the core offers,
//! and states what holds of them at every moment.

use vstd::prelude::*;
use crate::config::MAX_SYSCALL_NUM;
use crate::task::processor::ProcessorView;
use crate::task::task::{TaskStatus, TaskView};

verus! {

/// The processor and the tasks outside it.
pub struct SystemView {
    /// The processor, with the task that owns the CPU.
    pub processor: ProcessorView,
    /// The tasks that do not own the CPU.
    pub others: Seq<TaskView>,
}

/// A turn that changes which task runs, or what is recorded of it.
pub enum SystemEvent {
    /// The dispatch loop is given the task at `index` of the others while the
    /// timer reads `now`.
    Dispatch { index: int, now: usize },
    /// The current task enters system call `id`.
    Syscall { id: usize },
    /// The current task yields.
    Yield,
    /// The current task exits.
    Exit,
}

impl SystemView {
    /// The slot of the processor is empty or holds a running task, and no
    /// task outside the processor is marked as running.
    pub open spec fn inv(self) -> bool {
        &&& self.processor.inv()
        &&& forall|i: int|
            0 <= i < self.others.len() ==> {
                &&& (#[trigger] self.others[i]).well_formed()
                &&& self.others[i].status != TaskStatus::Running
            }
    }

    /// The system after the turn `ev`. A turn that needs a current task, or
    /// one of the others, changes nothing where there is none. A task that is
    /// still on the processor when another is dispatched is dropped.
    pub open spec fn after(self, ev: SystemEvent) -> SystemView {
        match ev {
            SystemEvent::Dispatch { index, now } => if 0 <= index < self.others.len() {
                SystemView {
                    processor: self.processor.installed(self.others[index], now),
                    others: self.others.remove(index),
                }
            } else {
                self
            },
            SystemEvent::Syscall { id } => SystemView {
                processor: self.processor.counted(id),
                ..self
            },
            SystemEvent::Yield => match self.processor.current {
                Some(task) => SystemView {
                    processor: self.processor.vacated(),
                    others: self.others.push(task.suspended()),
                },
                None => self,
            },
            SystemEvent::Exit => match self.processor.current {
                Some(task) => SystemView {
                    processor: self.processor.vacated(),
                    others: self.others.push(task.exited()),
                },
                None => self,
            },
        }
    }

    /// The system after the turns `evs`, in their order.
    pub open spec fn after_all(self, evs: Seq<SystemEvent>) -> SystemView
        decreases evs.len(),
    {
        if evs.len() == 0 {
            self
        } else {
            self.after_all(evs.drop_last()).after(evs.last())
        }
    }
}

/// At every moment at most one task is marked as running, and it is the one
/// on the processor: a system that starts so stays so through any turns.
pub proof fn lemma_one_task_runs(system: SystemView, evs: Seq<SystemEvent>)
    requires
        system.inv(),
    ensures
        system.after_all(evs).inv(),
    decreases evs.len(),
{
    if evs.len() > 0 {
        lemma_one_task_runs(system, evs.drop_last());
    }
}

/// An entry of the current task into system call `id` raises that one
/// counter of that one task by one. The other counters of the task, its
/// status and its start time stay, and so does every task outside the
/// processor.
pub proof fn lemma_syscall_entry_is_local(system: SystemView, id: usize)
    requires
        system.inv(),
        system.processor.current is Some,
        id < MAX_SYSCALL_NUM,
    ensures
        ({
            let before = system.processor.current->0;
            let after = system.after(SystemEvent::Syscall { id });
            &&& after.others == system.others
            &&& after.processor.current is Some
            &&& after.processor.current->0.syscall_times[id as int]
                == before.syscall_times[id as int] + 1
            &&& forall|other: int|
                0 <= other < MAX_SYSCALL_NUM && other != id
                    ==> after.processor.current->0.syscall_times[other]
                    == before.syscall_times[other]
            &&& after.processor.current->0.status == before.status
            &&& after.processor.current->0.start_time == before.start_time
        }),
{
}

} // verus!
