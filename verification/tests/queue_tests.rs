use taskdispatch::queue::{ScheduleMode, TaskQueue};
use taskdispatch::task::{Task, TaskKind, CPU_CAP, CPU_CPU_COST, IO_CPU_COST, TASK_DURATION_MS};

fn task(id: u64, kind: TaskKind, priority: u8) -> Task {
    Task {
        id,
        arrival_time_ms: 20 * (id + 1),
        kind,
        duration_ms: TASK_DURATION_MS,
        priority,
        enqueued_at: None,
        started_at: None,
        finished_at: None,
    }
}

#[test]
fn cpu_costs_match_kinds() {
    assert_eq!(TaskKind::Io.cpu_cost(), 10);
    assert_eq!(TaskKind::Cpu.cpu_cost(), 35);
    assert_eq!(IO_CPU_COST, 10);
    assert_eq!(CPU_CPU_COST, 35);
    assert_eq!(CPU_CAP, 100);
    assert_eq!(TaskKind::Io.label(), "IO");
    assert_eq!(TaskKind::Cpu.label(), "CPU");
}

#[test]
fn eight_io_tasks_fit_at_eighty_percent() {
    let mut q = TaskQueue::new(8, ScheduleMode::Fifo);
    for i in 0..9 {
        q.push(task(i, TaskKind::Io, 3));
    }
    for i in 0..8 {
        let t = q.try_next().expect("an IO task fits");
        assert_eq!(t.id, i);
    }
    assert_eq!(q.current_cpu(), 80);
    assert_eq!(q.active_workers(), 8);
    // all workers busy: the ninth waits although it would fit
    assert!(q.try_next().is_none());
    assert_eq!(q.len(), 1);
}

#[test]
fn two_cpu_and_three_io_fit_exactly() {
    let mut q = TaskQueue::new(8, ScheduleMode::Fifo);
    q.push(task(0, TaskKind::Cpu, 1));
    q.push(task(1, TaskKind::Cpu, 1));
    q.push(task(2, TaskKind::Io, 1));
    q.push(task(3, TaskKind::Io, 1));
    q.push(task(4, TaskKind::Io, 1));
    for _ in 0..5 {
        assert!(q.try_next().is_some());
    }
    assert_eq!(q.current_cpu(), 100);
    assert!(q.is_empty());
}

#[test]
fn third_cpu_task_is_blocked() {
    let mut q = TaskQueue::new(8, ScheduleMode::Fifo);
    for i in 0..3 {
        q.push(task(i, TaskKind::Cpu, 2));
    }
    assert!(q.try_next().is_some());
    assert!(q.try_next().is_some());
    assert_eq!(q.current_cpu(), 70);
    assert!(q.try_next().is_none());
    assert_eq!(q.len(), 1);
    assert_eq!(q.current_cpu(), 70);
    assert_eq!(q.active_workers(), 2);
}

#[test]
fn fifo_blocks_on_front_even_if_later_task_fits() {
    let mut q = TaskQueue::new(8, ScheduleMode::Fifo);
    q.push(task(0, TaskKind::Cpu, 1));
    q.push(task(1, TaskKind::Cpu, 1));
    q.push(task(2, TaskKind::Cpu, 1));
    q.push(task(3, TaskKind::Io, 1));
    q.try_next().unwrap();
    q.try_next().unwrap();
    // front CPU task needs 35 with 30 left; the IO task behind it would fit
    assert!(q.try_next().is_none());
    assert_eq!(q.len(), 2);
}

#[test]
fn optimized_skips_past_blocked_front() {
    let mut q = TaskQueue::new(8, ScheduleMode::Optimized);
    q.push(task(0, TaskKind::Cpu, 1));
    q.push(task(1, TaskKind::Cpu, 1));
    q.push(task(2, TaskKind::Cpu, 1));
    q.push(task(3, TaskKind::Io, 4));
    assert_eq!(q.try_next().unwrap().id, 0);
    assert_eq!(q.try_next().unwrap().id, 1);
    let t = q.try_next().unwrap();
    assert_eq!(t.id, 3);
    assert_eq!(q.current_cpu(), 80);
    assert_eq!(q.len(), 1);
}

#[test]
fn optimized_prefers_priority_then_io_then_arrival() {
    let mut q = TaskQueue::new(8, ScheduleMode::Optimized);
    q.push(task(0, TaskKind::Io, 3));
    q.push(task(1, TaskKind::Cpu, 2));
    q.push(task(2, TaskKind::Io, 2));
    q.push(task(3, TaskKind::Io, 2));
    q.push(task(4, TaskKind::Cpu, 5));
    assert_eq!(q.try_next().unwrap().id, 2);
    assert_eq!(q.try_next().unwrap().id, 3);
    assert_eq!(q.try_next().unwrap().id, 1);
    assert_eq!(q.try_next().unwrap().id, 0);
    assert_eq!(q.try_next().unwrap().id, 4);
    assert_eq!(q.current_cpu(), 10 + 10 + 35 + 10 + 35);
    assert!(q.try_next().is_none());
}

#[test]
fn optimized_with_nothing_fitting_returns_none() {
    let mut q = TaskQueue::new(8, ScheduleMode::Optimized);
    q.push(task(0, TaskKind::Cpu, 1));
    q.push(task(1, TaskKind::Cpu, 1));
    q.push(task(2, TaskKind::Cpu, 1));
    q.try_next().unwrap();
    q.try_next().unwrap();
    assert!(q.try_next().is_none());
    assert_eq!(q.len(), 1);
    assert_eq!(q.current_cpu(), 70);
}

#[test]
fn empty_queue_and_no_workers() {
    let mut q = TaskQueue::new(8, ScheduleMode::Fifo);
    assert!(q.try_next().is_none());
    assert!(q.is_empty());
    let mut z = TaskQueue::new(0, ScheduleMode::Optimized);
    z.push(task(0, TaskKind::Io, 1));
    assert!(z.try_next().is_none());
    assert_eq!(z.len(), 1);
    assert_eq!(z.max_workers(), 0);
    assert_eq!(z.mode(), ScheduleMode::Optimized);
}

#[test]
fn finishing_gives_back_the_charged_budget() {
    let mut q = TaskQueue::new(8, ScheduleMode::Fifo);
    q.push(task(0, TaskKind::Cpu, 1));
    q.push(task(1, TaskKind::Io, 1));
    let a = q.try_next().unwrap();
    let b = q.try_next().unwrap();
    assert_eq!(q.current_cpu(), 45);
    q.task_finished(&a.kind);
    assert_eq!(q.current_cpu(), 10);
    assert_eq!(q.active_workers(), 1);
    q.task_finished(&b.kind);
    assert_eq!(q.current_cpu(), 0);
    assert_eq!(q.active_workers(), 0);
}

#[test]
fn finishing_never_goes_below_zero() {
    let mut q = TaskQueue::new(8, ScheduleMode::Fifo);
    q.task_finished(&TaskKind::Cpu);
    assert_eq!(q.current_cpu(), 0);
    assert_eq!(q.active_workers(), 0);
    q.push(task(0, TaskKind::Io, 1));
    q.try_next().unwrap();
    q.task_finished(&TaskKind::Cpu);
    assert_eq!(q.current_cpu(), 0);
    assert_eq!(q.active_workers(), 0);
}
