use taskdispatch::metrics::Metrics;
use taskdispatch::monitor::MonitorLog;
use taskdispatch::task::{Task, TaskKind, TASK_DURATION_MS};

fn done(id: u64, kind: TaskKind, enq: u64, start: u64, fin: u64) -> Task {
    Task {
        id,
        arrival_time_ms: 0,
        kind,
        duration_ms: TASK_DURATION_MS,
        priority: 1,
        enqueued_at: Some(enq),
        started_at: Some(start),
        finished_at: Some(fin),
    }
}

#[test]
fn metrics_of_three_tasks() {
    let tasks = vec![
        done(0, TaskKind::Io, 0, 100, 300),
        done(1, TaskKind::Cpu, 10, 50, 250),
        done(2, TaskKind::Io, 20, 420, 620),
    ];
    let m = Metrics::compute(&tasks, 9_000);
    assert_eq!(m.total_completed, 3);
    assert_eq!(m.cpu_completed, 1);
    assert_eq!(m.io_completed, 2);
    assert_eq!(m.makespan_ns, 9_000);
    assert_eq!(m.total_wait_ns, 100 + 40 + 400);
    assert_eq!(m.total_turnaround_ns, 300 + 240 + 600);
    assert_eq!(m.max_wait_ns, 400);
    assert!(m.total_wait_ns <= m.total_completed as u128 * m.max_wait_ns as u128);
}

#[test]
fn metrics_skip_unknown_times_but_count_the_task() {
    let mut t = done(0, TaskKind::Cpu, 0, 0, 0);
    t.started_at = None;
    t.finished_at = None;
    let tasks = vec![t, done(1, TaskKind::Io, 5, 15, 215)];
    let m = Metrics::compute(&tasks, 1);
    assert_eq!(m.total_completed, 2);
    assert_eq!(m.total_wait_ns, 10);
    assert_eq!(m.total_turnaround_ns, 210);
    assert_eq!(m.max_wait_ns, 10);
}

#[test]
fn metrics_of_nothing() {
    let m = Metrics::compute(&[], 0);
    assert_eq!(m.total_completed, 0);
    assert_eq!(m.cpu_completed, 0);
    assert_eq!(m.io_completed, 0);
    assert_eq!(m.total_wait_ns, 0);
    assert_eq!(m.max_wait_ns, 0);
}

#[test]
fn monitor_sums_and_peak() {
    let mut log = MonitorLog::new();
    assert_eq!(log.peak_cpu(), 0);
    assert_eq!(log.total_time_ns(), 0);
    log.record(10_000_000, 45, 2, 7);
    log.record(20_000_000, 100, 5, 3);
    log.record(30_000_000, 80, 8, 0);
    assert_eq!(log.len(), 3);
    assert_eq!(log.cpu_sum(), 225);
    assert_eq!(log.active_workers_sum(), 15);
    assert_eq!(log.peak_cpu(), 100);
    assert_eq!(log.total_time_ns(), 30_000_000);
    assert_eq!(log.snapshots[1].queue_len, 3);
    assert!(log.cpu_sum() <= log.len() as u128 * log.peak_cpu() as u128);
}

#[test]
fn monitor_readings_stay_in_time_order() {
    let mut log = MonitorLog::new();
    log.record(5, 10, 1, 0);
    log.record(5, 20, 2, 0);
    log.record(9, 30, 3, 1);
    let times: Vec<u64> = log.snapshots.iter().map(|s| s.elapsed_ns).collect();
    assert_eq!(times, vec![5, 5, 9]);
    assert_eq!(log.total_time_ns(), 9);
}
