//! Tasks, their kinds and CPU costs, and the workload generator.

use vstd::prelude::*;

use crate::rng::{gen_range_u64, gen_range_u8, gen_ratio, seeded_rng};
use rand::rngs::StdRng;

verus! {

/// CPU percentage that an IO-bound task uses while it runs.
pub const IO_CPU_COST: u32 = 10;

/// CPU percentage that a CPU-bound task uses while it runs.
pub const CPU_CPU_COST: u32 = 35;

/// How long every task runs, in milliseconds.
pub const TASK_DURATION_MS: u64 = 200;

/// The system-wide CPU cap, in percent: running tasks together never use more.
pub const CPU_CAP: u32 = 100;

/// Smallest and largest gap between two arrivals, in milliseconds.
pub const MIN_ARRIVAL_GAP_MS: u64 = 15;
pub const MAX_ARRIVAL_GAP_MS: u64 = 25;

/// Priorities go from 1 (highest) to 5 (lowest).
pub const HIGHEST_PRIORITY: u8 = 1;
pub const LOWEST_PRIORITY: u8 = 5;

/// Seven tasks in ten are IO-bound.
pub const IO_SHARE_NUMERATOR: u32 = 7;
pub const IO_SHARE_DENOMINATOR: u32 = 10;

/// Whether a task is IO-bound or CPU-bound; this decides its CPU cost.
#[derive(Debug, Clone, Copy, PartialEq, Eq, Structural)]
pub enum TaskKind {
    Io,
    Cpu,
}

impl TaskKind {
    /// The CPU percentage a task of this kind uses while running.
    pub open spec fn cost(self) -> int {
        match self {
            TaskKind::Io => IO_CPU_COST as int,
            TaskKind::Cpu => CPU_CPU_COST as int,
        }
    }

    /// The CPU percentage a task of this kind uses while it runs.
    pub fn cpu_cost(&self) -> (c: u32)
        ensures
            c == self.cost(),
    {
        match self {
            TaskKind::Io => IO_CPU_COST,
            TaskKind::Cpu => CPU_CPU_COST,
        }
    }

    /// The short name under which the kind is printed ("IO" or "CPU").
    pub fn label(&self) -> (s: &'static str)
        ensures
            *self == TaskKind::Io ==> s@ == "IO"@,
            *self == TaskKind::Cpu ==> s@ == "CPU"@,
    {
        match self {
            TaskKind::Io => "IO",
            TaskKind::Cpu => "CPU",
        }
    }
}

/// The unit of work. Timestamps are nanoseconds since the start of the run; they
/// are filled in as the task is queued, started and finished.
#[derive(Debug, Clone, Copy)]
pub struct Task {
    pub id: u64,
    pub arrival_time_ms: u64,
    pub kind: TaskKind,
    pub duration_ms: u64,
    /// From 1 (highest) to 5 (lowest).
    pub priority: u8,
    pub enqueued_at: Option<u64>,
    pub started_at: Option<u64>,
    pub finished_at: Option<u64>,
}

/// Time from `from` to `to` when both are known; zero when `to` is earlier.
pub open spec fn span(from: Option<u64>, to: Option<u64>) -> Option<u64> {
    match (from, to) {
        (Some(a), Some(b)) => Some(if a <= b { (b - a) as u64 } else { 0u64 }),
        _ => None,
    }
}

fn elapsed_between(from: Option<u64>, to: Option<u64>) -> (r: Option<u64>)
    ensures
        r == span(from, to),
{
    match (from, to) {
        (Some(a), Some(b)) => Some(if a <= b { b - a } else { 0 }),
        _ => None,
    }
}

impl Task {
    /// A task as the generator makes it: it runs for the standard duration and has
    /// not been queued, started or finished yet.
    pub fn new_pending(id: u64, arrival_time_ms: u64, kind: TaskKind, priority: u8) -> (t: Task)
        ensures
            t == (Task {
                id,
                arrival_time_ms,
                kind,
                duration_ms: TASK_DURATION_MS,
                priority,
                enqueued_at: None,
                started_at: None,
                finished_at: None,
            }),
    {
        Task {
            id,
            arrival_time_ms,
            kind,
            duration_ms: TASK_DURATION_MS,
            priority,
            enqueued_at: None,
            started_at: None,
            finished_at: None,
        }
    }

    /// How long the task sat in the queue before a worker picked it up.
    pub open spec fn spec_wait(self) -> Option<u64> {
        span(self.enqueued_at, self.started_at)
    }

    /// Total time from entering the queue to finishing.
    pub open spec fn spec_turnaround(self) -> Option<u64> {
        span(self.enqueued_at, self.finished_at)
    }

    /// Wait time: from entering the queue to being started.
    pub fn wait_time(&self) -> (r: Option<u64>)
        ensures
            r == self.spec_wait(),
    {
        elapsed_between(self.enqueued_at, self.started_at)
    }

    /// Turnaround time: from entering the queue to finishing.
    pub fn turnaround_time(&self) -> (r: Option<u64>)
        ensures
            r == self.spec_turnaround(),
    {
        elapsed_between(self.enqueued_at, self.finished_at)
    }
}

/// Law: the wait time is the time from being queued to being started, and the
/// turnaround time the time from being queued to finishing: the later stamp minus the
/// earlier one, zero when the later is earlier, and unknown while a stamp is missing.
pub proof fn law_times_between_stamps(t: Task)
    ensures
        t.enqueued_at is None || t.started_at is None ==> t.spec_wait() is None,
        t.enqueued_at is None || t.finished_at is None ==> t.spec_turnaround() is None,
        t.enqueued_at matches Some(e) ==> (t.started_at matches Some(b) ==> t.spec_wait()
            == Some(if e <= b { (b - e) as u64 } else { 0u64 })),
        t.enqueued_at matches Some(e) ==> (t.finished_at matches Some(f) ==> t.spec_turnaround()
            == Some(if e <= f { (f - e) as u64 } else { 0u64 })),
{
}

/// The kind of a task whose IO/CPU draw came out `io_draw`: IO-bound exactly when the
/// draw is true.
pub fn kind_for_draw(io_draw: bool) -> (k: TaskKind)
    ensures
        (k == TaskKind::Io) == io_draw,
        (k == TaskKind::Cpu) == !io_draw,
{
    if io_draw {
        TaskKind::Io
    } else {
        TaskKind::Cpu
    }
}

/// What every task freshly produced by the generator looks like, given its position.
pub open spec fn generated_ok(tasks: Seq<Task>, i: int) -> bool {
    let t = tasks[i];
    let prev_arrival: int = if i == 0 { 0 } else { tasks[i - 1].arrival_time_ms as int };
    &&& t.id == i
    &&& MIN_ARRIVAL_GAP_MS <= t.arrival_time_ms - prev_arrival <= MAX_ARRIVAL_GAP_MS
    &&& HIGHEST_PRIORITY <= t.priority <= LOWEST_PRIORITY
    &&& t.duration_ms == TASK_DURATION_MS
    &&& t.enqueued_at is None
    &&& t.started_at is None
    &&& t.finished_at is None
}

/// Generates `count` tasks up front. Arrivals are spaced 15 to 25 ms apart, seven
/// in ten tasks are IO-bound (drawn with `rng`), and priorities are drawn from 1..=5.
pub fn generate_tasks(count: u64, rng: &mut StdRng) -> (tasks: Vec<Task>)
    requires
        count <= usize::MAX,
        count * MAX_ARRIVAL_GAP_MS <= u64::MAX,
    ensures
        tasks@.len() == count,
        forall|i: int| 0 <= i < count ==> #[trigger] generated_ok(tasks@, i),
{
    let mut tasks: Vec<Task> = Vec::new();
    let mut arrival_ms: u64 = 0;
    let mut id: u64 = 0;
    while id < count
        invariant
            id <= count,
            count <= usize::MAX,
            count * MAX_ARRIVAL_GAP_MS <= u64::MAX,
            tasks@.len() == id,
            arrival_ms <= id * MAX_ARRIVAL_GAP_MS,
            id == 0 ==> arrival_ms == 0,
            id > 0 ==> arrival_ms == tasks@[id - 1].arrival_time_ms,
            forall|i: int| 0 <= i < id ==> #[trigger] generated_ok(tasks@, i),
        decreases count - id,
    {
        let gap = gen_range_u64(rng, MIN_ARRIVAL_GAP_MS, MAX_ARRIVAL_GAP_MS);
        assert((id + 1) * MAX_ARRIVAL_GAP_MS == id * MAX_ARRIVAL_GAP_MS + MAX_ARRIVAL_GAP_MS)
            by (nonlinear_arith);
        assert((id + 1) * MAX_ARRIVAL_GAP_MS <= count * MAX_ARRIVAL_GAP_MS) by (nonlinear_arith)
            requires id + 1 <= count;
        arrival_ms = arrival_ms + gap;
        let kind = kind_for_draw(gen_ratio(rng, IO_SHARE_NUMERATOR, IO_SHARE_DENOMINATOR));
        let priority = gen_range_u8(rng, HIGHEST_PRIORITY, LOWEST_PRIORITY);
        let ghost before = tasks@;
        tasks.push(Task::new_pending(id, arrival_ms, kind, priority));
        assert forall|i: int| 0 <= i <= id implies #[trigger] generated_ok(tasks@, i) by {
            if i < id {
                assert(tasks@[i] == before[i]);
                assert(generated_ok(before, i));
                if i > 0 {
                    assert(tasks@[i - 1] == before[i - 1]);
                }
            }
        }
        id = id + 1;
    }
    tasks
}

/// Law: in a generated workload, arrival times strictly increase with the task id,
/// and task `i` arrives between 15 and 25 ms per task after the start.
pub proof fn law_arrivals_increase(tasks: Seq<Task>)
    requires
        forall|i: int| 0 <= i < tasks.len() ==> #[trigger] generated_ok(tasks, i),
    ensures
        forall|i: int, j: int|
            0 <= i < j < tasks.len() ==> #[trigger] tasks[i].arrival_time_ms
                < #[trigger] tasks[j].arrival_time_ms,
        forall|i: int|
            0 <= i < tasks.len() ==> (i + 1) * MIN_ARRIVAL_GAP_MS <= #[trigger] tasks[i].arrival_time_ms
                <= (i + 1) * MAX_ARRIVAL_GAP_MS,
{
    assert forall|i: int|
        0 <= i < tasks.len() implies (i + 1) * MIN_ARRIVAL_GAP_MS <= #[trigger] tasks[i].arrival_time_ms
        <= (i + 1) * MAX_ARRIVAL_GAP_MS by {
        lemma_arrival_bounds(tasks, i);
    }
    assert forall|i: int, j: int|
        0 <= i < j < tasks.len() implies #[trigger] tasks[i].arrival_time_ms
        < #[trigger] tasks[j].arrival_time_ms by {
        lemma_arrival_grows(tasks, i, j);
    }
}

proof fn lemma_arrival_bounds(tasks: Seq<Task>, i: int)
    requires
        0 <= i < tasks.len(),
        forall|k: int| 0 <= k < tasks.len() ==> #[trigger] generated_ok(tasks, k),
    ensures
        (i + 1) * MIN_ARRIVAL_GAP_MS <= tasks[i].arrival_time_ms <= (i + 1) * MAX_ARRIVAL_GAP_MS,
    decreases i,
{
    assert(generated_ok(tasks, i));
    if i > 0 {
        lemma_arrival_bounds(tasks, i - 1);
    }
}

proof fn lemma_arrival_grows(tasks: Seq<Task>, i: int, j: int)
    requires
        0 <= i < j < tasks.len(),
        forall|k: int| 0 <= k < tasks.len() ==> #[trigger] generated_ok(tasks, k),
    ensures
        tasks[i].arrival_time_ms < tasks[j].arrival_time_ms,
    decreases j - i,
{
    assert(generated_ok(tasks, j));
    if j > i + 1 {
        lemma_arrival_grows(tasks, i, j - 1);
    }
}

/// Generates the workload of a run from a fixed seed, so that every run with the
/// same seed sees the same task list.
pub fn generate_seeded_tasks(count: u64, seed: u64) -> (tasks: Vec<Task>)
    requires
        count <= usize::MAX,
        count * MAX_ARRIVAL_GAP_MS <= u64::MAX,
    ensures
        tasks@.len() == count,
        forall|i: int| 0 <= i < count ==> #[trigger] generated_ok(tasks@, i),
{
    let mut rng = seeded_rng(seed);
    generate_tasks(count, &mut rng)
}

} // verus!
