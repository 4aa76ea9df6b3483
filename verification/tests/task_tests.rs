use taskdispatch::task::{generate_seeded_tasks, Task, TaskKind, TASK_DURATION_MS};

fn stamped(enq: Option<u64>, start: Option<u64>, fin: Option<u64>) -> Task {
    Task {
        id: 7,
        arrival_time_ms: 140,
        kind: TaskKind::Io,
        duration_ms: TASK_DURATION_MS,
        priority: 2,
        enqueued_at: enq,
        started_at: start,
        finished_at: fin,
    }
}

#[test]
fn wait_and_turnaround_times() {
    let t = stamped(Some(1_000), Some(4_500), Some(204_500));
    assert_eq!(t.wait_time(), Some(3_500));
    assert_eq!(t.turnaround_time(), Some(203_500));
}

#[test]
fn times_unknown_until_stamped() {
    let t = stamped(None, Some(5), Some(9));
    assert_eq!(t.wait_time(), None);
    assert_eq!(t.turnaround_time(), None);
    let t = stamped(Some(5), None, None);
    assert_eq!(t.wait_time(), None);
    assert_eq!(t.turnaround_time(), None);
}

#[test]
fn earlier_end_gives_zero() {
    let t = stamped(Some(100), Some(40), Some(90));
    assert_eq!(t.wait_time(), Some(0));
    assert_eq!(t.turnaround_time(), Some(0));
}

#[test]
fn generated_workload_has_expected_shape() {
    let tasks = generate_seeded_tasks(1000, 42);
    assert_eq!(tasks.len(), 1000);
    let mut last = 0u64;
    let mut gaps = std::collections::BTreeSet::new();
    let mut prios = std::collections::BTreeSet::new();
    let mut io = 0usize;
    for (i, t) in tasks.iter().enumerate() {
        assert_eq!(t.id, i as u64);
        let gap = t.arrival_time_ms - last;
        assert!((15..=25).contains(&gap));
        gaps.insert(gap);
        last = t.arrival_time_ms;
        assert!((1..=5).contains(&t.priority));
        prios.insert(t.priority);
        assert_eq!(t.duration_ms, 200);
        assert!(t.enqueued_at.is_none() && t.started_at.is_none() && t.finished_at.is_none());
        if t.kind == TaskKind::Io {
            io += 1;
        }
    }
    // the draws really are random, not a fixed end of their range
    assert!(gaps.len() > 5);
    assert_eq!(prios.len(), 5);
    assert!(io > 600 && io < 800);
}

#[test]
fn same_seed_gives_same_workload() {
    let a = generate_seeded_tasks(200, 42);
    let b = generate_seeded_tasks(200, 42);
    for (x, y) in a.iter().zip(b.iter()) {
        assert_eq!(x.arrival_time_ms, y.arrival_time_ms);
        assert_eq!(x.kind, y.kind);
        assert_eq!(x.priority, y.priority);
    }
    let c = generate_seeded_tasks(200, 7);
    assert!(a.iter().zip(c.iter()).any(|(x, y)| x.arrival_time_ms != y.arrival_time_ms || x.kind != y.kind));
}

#[test]
fn empty_workload() {
    assert!(generate_seeded_tasks(0, 42).is_empty());
}
