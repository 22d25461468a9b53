use sched_core::config::MAX_SYSCALL_NUM;
use sched_core::syscall::process::sys_yield;
use sched_core::task::processor::{add_syscall_times, run_tasks, syscall_times};
use sched_core::task::{Processor, TaskContext, TaskControlBlock, TaskStatus};
use sched_core::trap::TrapContext;

fn new_task(token: usize) -> TaskControlBlock {
    TaskControlBlock::new(
        token,
        TaskContext::zero_init(),
        TrapContext { x: [0; 32], sstatus: 0, sepc: 0 },
    )
}

#[test]
fn the_table_has_one_counter_per_system_call_id() {
    assert_eq!(MAX_SYSCALL_NUM, 500);
    assert_eq!(new_task(1).syscall_times().len(), MAX_SYSCALL_NUM);
}

#[test]
fn counters_start_at_zero() {
    let mut processor = Processor::new();
    run_tasks(&mut processor, Some(new_task(1)), 10);
    assert_eq!(processor.syscall_times(), [0u32; MAX_SYSCALL_NUM]);
    assert_eq!(syscall_times(&processor), [0u32; MAX_SYSCALL_NUM]);
}

#[test]
fn a_counter_holds_the_number_of_entries() {
    let mut processor = Processor::new();
    run_tasks(&mut processor, Some(new_task(1)), 10);
    let mut n: u32 = 0;
    while n < 37 {
        assert_eq!(processor.syscall_times()[64], n);
        processor.add_syscall_times(64);
        n += 1;
    }
    assert_eq!(processor.syscall_times()[64], 37);
}

#[test]
fn an_entry_raises_one_counter_and_no_other() {
    let mut processor = Processor::new();
    run_tasks(&mut processor, Some(new_task(1)), 10);
    add_syscall_times(&mut processor, 93);
    add_syscall_times(&mut processor, 169);
    add_syscall_times(&mut processor, 169);
    let mut expected = [0u32; MAX_SYSCALL_NUM];
    expected[93] = 1;
    expected[169] = 2;
    assert_eq!(processor.syscall_times(), expected);
    assert_eq!(processor.current_status(), TaskStatus::Running);
    assert_eq!(processor.start_time(), 10);
}

#[test]
fn the_first_and_the_last_id_are_counted() {
    let mut processor = Processor::new();
    run_tasks(&mut processor, Some(new_task(1)), 10);
    processor.add_syscall_times(0);
    processor.add_syscall_times(MAX_SYSCALL_NUM - 1);
    processor.add_syscall_times(MAX_SYSCALL_NUM - 1);
    let times = processor.syscall_times();
    assert_eq!(times[0], 1);
    assert_eq!(times[MAX_SYSCALL_NUM - 1], 2);
    assert_eq!(times.iter().map(|count| *count as usize).sum::<usize>(), 3);
}

#[test]
fn counting_on_a_task_outside_the_processor() {
    let mut task = new_task(5);
    task.add_syscall_times(410);
    task.add_syscall_times(410);
    task.add_syscall_times(410);
    assert_eq!(task.syscall_times()[410], 3);
    assert_eq!(task.task_status(), TaskStatus::Ready);
    assert_eq!(task.start_time(), 0);
}

#[test]
fn the_entries_of_one_task_do_not_reach_another() {
    let mut processor = Processor::new();
    run_tasks(&mut processor, Some(new_task(1)), 10);
    processor.add_syscall_times(64);
    processor.add_syscall_times(64);
    let (_, a) = sys_yield(&mut processor);

    run_tasks(&mut processor, Some(new_task(2)), 20);
    assert_eq!(processor.syscall_times()[64], 0);
    processor.add_syscall_times(64);
    processor.add_syscall_times(124);
    assert_eq!(a.syscall_times()[64], 2);
    assert_eq!(a.syscall_times()[124], 0);
    let (_, b) = sys_yield(&mut processor);

    run_tasks(&mut processor, Some(a), 30);
    assert_eq!(processor.syscall_times()[64], 2);
    processor.add_syscall_times(64);
    assert_eq!(processor.syscall_times()[64], 3);
    assert_eq!(b.syscall_times()[64], 1);
    assert_eq!(b.syscall_times()[124], 1);
}

#[test]
fn counters_survive_yield_and_dispatch() {
    let mut processor = Processor::new();
    run_tasks(&mut processor, Some(new_task(1)), 10);
    processor.add_syscall_times(7);
    let (_, task) = sys_yield(&mut processor);
    assert_eq!(task.syscall_times()[7], 1);
    run_tasks(&mut processor, Some(task), 20);
    assert_eq!(processor.syscall_times()[7], 1);
}
