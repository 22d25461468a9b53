use sched_core::syscall::process::{sys_exit, sys_yield};
use sched_core::task::context::TASK_CONTEXT_WORDS;
use sched_core::task::processor::{
    current_start_time, current_status, current_task, current_trap_cx, current_user_token,
    run_tasks, schedule, take_current_task,
};
use sched_core::task::{Processor, TaskContext, TaskControlBlock, TaskStatus};
use sched_core::trap::TrapContext;

fn blank_trap() -> TrapContext {
    TrapContext { x: [0; 32], sstatus: 0, sepc: 0 }
}

fn context_at(ra: usize, sp: usize) -> TaskContext {
    let mut regs: [usize; TASK_CONTEXT_WORDS] = [0; TASK_CONTEXT_WORDS];
    regs[0] = ra;
    regs[1] = sp;
    TaskContext { regs }
}

fn new_task(token: usize) -> TaskControlBlock {
    TaskControlBlock::new(token, TaskContext::zero_init(), blank_trap())
}

#[test]
fn zero_context_holds_only_zeros() {
    let cx = TaskContext::zero_init();
    assert_eq!(cx.regs, [0usize; TASK_CONTEXT_WORDS]);
}

#[test]
fn new_processor_runs_nothing() {
    let mut processor = Processor::new();
    assert!(processor.current().is_none());
    assert!(current_task(&processor).is_none());
    assert_eq!(*processor.idle_task_cx(), TaskContext::zero_init());
    assert!(processor.take_current().is_none());
    assert!(take_current_task(&mut processor).is_none());
}

#[test]
fn new_task_is_ready_and_was_never_dispatched() {
    let task = TaskControlBlock::new(0x8000_0000, context_at(0x100, 0x200), blank_trap());
    assert_eq!(task.task_status(), TaskStatus::Ready);
    assert_eq!(task.start_time(), 0);
    assert_eq!(task.get_user_token(), 0x8000_0000);
    assert_eq!(*task.task_cx(), context_at(0x100, 0x200));
    assert_eq!(*task.trap_cx(), blank_trap());
    assert!(task.syscall_times().iter().all(|count| *count == 0));
}

#[test]
fn dispatch_marks_running_and_stamps_start_time() {
    let mut processor = Processor::new();
    assert!(run_tasks(&mut processor, Some(new_task(7)), 1000).is_some());
    assert_eq!(processor.current_status(), TaskStatus::Running);
    assert_eq!(current_status(&processor), TaskStatus::Running);
    assert_eq!(processor.start_time(), 1000);
    assert_eq!(current_start_time(&processor), 1000);
    assert_eq!(current_user_token(&processor), 7);
}

#[test]
fn dispatch_without_a_task_changes_nothing() {
    let mut processor = Processor::new();
    assert!(run_tasks(&mut processor, None, 1000).is_none());
    assert!(processor.current().is_none());

    run_tasks(&mut processor, Some(new_task(7)), 1000);
    assert!(run_tasks(&mut processor, None, 2000).is_none());
    assert_eq!(current_user_token(&processor), 7);
    assert_eq!(processor.start_time(), 1000);
    assert_eq!(processor.current_status(), TaskStatus::Running);
}

#[test]
fn dispatch_saves_into_the_idle_context_and_loads_from_the_task() {
    let mut processor = Processor::new();
    let task = TaskControlBlock::new(1, context_at(0x1111, 0x2222), blank_trap());
    {
        let (save_into, load_from) = run_tasks(&mut processor, Some(task), 5).unwrap();
        assert_eq!(*save_into, TaskContext::zero_init());
        assert_eq!(*load_from, context_at(0x1111, 0x2222));
        *save_into = context_at(0xaaaa, 0xbbbb);
    }
    assert_eq!(*processor.idle_task_cx(), context_at(0xaaaa, 0xbbbb));
    assert_eq!(*processor.current().unwrap().task_cx(), context_at(0x1111, 0x2222));
}

#[test]
fn schedule_saves_into_the_leaving_task_and_loads_from_the_idle_context() {
    let mut processor = Processor::new();
    {
        let (save_into, _) = run_tasks(&mut processor, Some(new_task(1)), 5).unwrap();
        *save_into = context_at(0xaaaa, 0xbbbb);
    }
    let (_, mut task) = sys_yield(&mut processor);
    {
        let (save_into, load_from) = schedule(&processor, task.task_cx_mut());
        assert_eq!(*load_from, context_at(0xaaaa, 0xbbbb));
        assert_eq!(*save_into, TaskContext::zero_init());
        *save_into = context_at(0x3333, 0x4444);
    }
    assert_eq!(*task.task_cx(), context_at(0x3333, 0x4444));
    assert_eq!(*processor.idle_task_cx(), context_at(0xaaaa, 0xbbbb));
}

#[test]
fn start_time_is_kept_on_later_dispatches() {
    let mut processor = Processor::new();
    run_tasks(&mut processor, Some(new_task(7)), 1000);
    let (_, task) = sys_yield(&mut processor);
    assert_eq!(task.start_time(), 1000);
    run_tasks(&mut processor, Some(task), 2000);
    assert_eq!(processor.start_time(), 1000);
    let (_, task) = sys_yield(&mut processor);
    run_tasks(&mut processor, Some(task), 3000);
    assert_eq!(processor.start_time(), 1000);
}

#[test]
fn start_time_survives_the_run_of_another_task() {
    let mut processor = Processor::new();
    let a = new_task(1);
    let b = new_task(2);

    run_tasks(&mut processor, Some(a), 1000);
    let (ret, a) = sys_yield(&mut processor);
    assert_eq!(ret, 0);
    assert_eq!(a.task_status(), TaskStatus::Ready);

    run_tasks(&mut processor, Some(b), 1500);
    assert_eq!(current_user_token(&processor), 2);
    assert_eq!(processor.start_time(), 1500);
    let b = sys_exit(&mut processor, 0);
    assert_eq!(b.task_status(), TaskStatus::Exited);
    assert_eq!(b.start_time(), 1500);

    run_tasks(&mut processor, Some(a), 2000);
    assert_eq!(current_user_token(&processor), 1);
    assert_eq!(processor.current_status(), TaskStatus::Running);
    assert_eq!(processor.start_time(), 1000);
}

#[test]
fn a_first_dispatch_at_timer_zero_leaves_the_start_time_open() {
    let mut processor = Processor::new();
    run_tasks(&mut processor, Some(new_task(7)), 0);
    assert_eq!(processor.current_status(), TaskStatus::Running);
    assert_eq!(processor.start_time(), 0);
    let (_, task) = sys_yield(&mut processor);
    run_tasks(&mut processor, Some(task), 40);
    assert_eq!(processor.start_time(), 40);
}

#[test]
fn take_current_empties_the_slot_and_hands_the_task_out_as_it_ran() {
    let mut processor = Processor::new();
    run_tasks(&mut processor, Some(new_task(7)), 1000);
    let task = processor.take_current().unwrap();
    assert_eq!(task.get_user_token(), 7);
    assert_eq!(task.task_status(), TaskStatus::Running);
    assert_eq!(task.start_time(), 1000);
    assert!(processor.current().is_none());
    assert!(processor.take_current().is_none());

    run_tasks(&mut processor, Some(new_task(8)), 2000);
    let task = take_current_task(&mut processor).unwrap();
    assert_eq!(task.get_user_token(), 8);
    assert!(current_task(&processor).is_none());
}

#[test]
fn current_looks_at_the_task_and_leaves_it_in_place() {
    let mut processor = Processor::new();
    run_tasks(&mut processor, Some(new_task(7)), 1000);
    assert_eq!(processor.current().unwrap().get_user_token(), 7);
    assert_eq!(current_task(&processor).unwrap().get_user_token(), 7);
    assert_eq!(processor.current().unwrap().task_status(), TaskStatus::Running);
    assert!(processor.current().is_some());
}

#[test]
fn a_task_that_left_the_processor_is_not_running() {
    let mut processor = Processor::new();
    run_tasks(&mut processor, Some(new_task(1)), 10);
    let (ret, yielded) = sys_yield(&mut processor);
    assert_eq!(ret, 0);
    assert!(processor.current().is_none());
    assert_eq!(yielded.task_status(), TaskStatus::Ready);
    assert_eq!(yielded.get_user_token(), 1);

    run_tasks(&mut processor, Some(new_task(2)), 20);
    let exited = sys_exit(&mut processor, -3);
    assert!(processor.current().is_none());
    assert_eq!(exited.task_status(), TaskStatus::Exited);
    assert_eq!(exited.get_user_token(), 2);

    run_tasks(&mut processor, Some(yielded), 30);
    assert_eq!(processor.current_status(), TaskStatus::Running);
    assert_eq!(exited.task_status(), TaskStatus::Exited);
}

#[test]
fn a_dispatch_onto_a_busy_processor_replaces_the_task() {
    let mut processor = Processor::new();
    run_tasks(&mut processor, Some(new_task(1)), 10);
    run_tasks(&mut processor, Some(new_task(2)), 20);
    assert_eq!(current_user_token(&processor), 2);
    assert_eq!(processor.start_time(), 20);
    assert_eq!(processor.current_status(), TaskStatus::Running);
}

#[test]
fn the_trap_context_of_the_current_task_can_be_changed_in_place() {
    let mut processor = Processor::new();
    run_tasks(&mut processor, Some(new_task(7)), 1000);
    processor.add_syscall_times(3);
    {
        let cx = current_trap_cx(&mut processor);
        assert_eq!(*cx, blank_trap());
        cx.x[10] = 99;
        cx.sepc = 0x1_0004;
    }
    let task = processor.take_current().unwrap();
    assert_eq!(task.trap_cx().x[10], 99);
    assert_eq!(task.trap_cx().sepc, 0x1_0004);
    assert_eq!(task.trap_cx().sstatus, 0);
    assert_eq!(task.start_time(), 1000);
    assert_eq!(task.task_status(), TaskStatus::Running);
    assert_eq!(task.syscall_times()[3], 1);
}

#[test]
fn the_contexts_of_a_task_can_be_changed_in_place() {
    let mut task = new_task(7);
    task.task_cx_mut().regs[1] = 0x9000;
    task.get_trap_cx().sstatus = 5;
    assert_eq!(task.task_cx().regs[1], 0x9000);
    assert_eq!(task.task_cx().regs[0], 0);
    assert_eq!(task.trap_cx().sstatus, 5);
    assert_eq!(task.task_status(), TaskStatus::Ready);
    assert_eq!(task.get_user_token(), 7);
}
