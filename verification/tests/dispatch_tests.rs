use taskdispatch::dispatch::{submit_delay_ms, CollectStep, Collector, CompletionMsg, SharedState, WorkerAction};
use taskdispatch::queue::ScheduleMode;
use taskdispatch::task::{Task, TaskKind, TASK_DURATION_MS};

fn task(id: u64, kind: TaskKind) -> Task {
    Task {
        id,
        arrival_time_ms: 20,
        kind,
        duration_ms: TASK_DURATION_MS,
        priority: 1,
        enqueued_at: None,
        started_at: None,
        finished_at: None,
    }
}

#[test]
fn submit_stamps_enqueue_time() {
    let mut s = SharedState::new(2, ScheduleMode::Fifo);
    s.submit(task(0, TaskKind::Io), 1234);
    assert_eq!(s.snapshot(), (0, 0, 1));
    match s.next_action() {
        WorkerAction::Run(t) => {
            assert_eq!(t.id, 0);
            assert_eq!(t.enqueued_at, Some(1234));
        }
        _ => panic!("expected a task to run"),
    }
    assert_eq!(s.snapshot(), (10, 1, 0));
}

#[test]
fn worker_waits_then_exits_when_all_done() {
    let mut s = SharedState::new(1, ScheduleMode::Fifo);
    s.submit(task(0, TaskKind::Cpu), 0);
    s.submit(task(1, TaskKind::Cpu), 0);
    let first = match s.next_action() {
        WorkerAction::Run(t) => t,
        _ => panic!("expected a task"),
    };
    // the only worker slot is busy
    assert!(matches!(s.next_action(), WorkerAction::Wait));
    s.signal_generation_done();
    assert!(matches!(s.next_action(), WorkerAction::Wait));
    s.task_finished(&first.kind);
    assert!(matches!(s.next_action(), WorkerAction::Run(_)));
    // a task is still running: not done yet
    assert!(matches!(s.next_action(), WorkerAction::Wait));
    s.task_finished(&TaskKind::Cpu);
    assert!(matches!(s.next_action(), WorkerAction::Exit));
}

#[test]
fn no_exit_before_generation_done() {
    let mut s = SharedState::new(4, ScheduleMode::Fifo);
    assert!(matches!(s.next_action(), WorkerAction::Wait));
    assert!(!s.generation_done);
}

#[test]
fn shutdown_wins_over_pending_work() {
    let mut s = SharedState::new(4, ScheduleMode::Fifo);
    s.submit(task(0, TaskKind::Io), 0);
    s.signal_shutdown();
    assert!(matches!(s.next_action(), WorkerAction::Exit));
    assert_eq!(s.queue.len(), 1);
}

#[test]
fn collector_counts_exits_and_keeps_tasks() {
    let mut c = Collector::new(2);
    assert!(!c.is_done());
    match c.receive(CompletionMsg::Done(task(5, TaskKind::Cpu))) {
        CollectStep::Release(k) => assert_eq!(k, TaskKind::Cpu),
        _ => panic!("a finished task releases its budget"),
    }
    assert!(matches!(c.receive(CompletionMsg::WorkerExited), CollectStep::Continue));
    assert_eq!(c.workers_exited(), 1);
    match c.receive(CompletionMsg::Done(task(6, TaskKind::Io))) {
        CollectStep::Release(k) => assert_eq!(k, TaskKind::Io),
        _ => panic!("a finished task releases its budget"),
    }
    assert!(matches!(c.receive(CompletionMsg::WorkerExited), CollectStep::Stop));
    assert!(c.is_done());
    assert_eq!(c.completed().len(), 2);
    let ids: Vec<u64> = c.into_completed().iter().map(|t| t.id).collect();
    assert_eq!(ids, vec![5, 6]);
}

#[test]
fn submission_delays_are_scaled_and_capped() {
    assert_eq!(submit_delay_ms(20, 0), 2);
    assert_eq!(submit_delay_ms(45, 20), 2);
    assert_eq!(submit_delay_ms(60, 20), 3);
    assert_eq!(submit_delay_ms(29, 20), 0);
    assert_eq!(submit_delay_ms(10, 20), 0);
    assert_eq!(submit_delay_ms(1000, 0), 3);
}
