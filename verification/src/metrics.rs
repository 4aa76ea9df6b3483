//! The run's statistics, computed from the finished tasks. Times are nanoseconds;
//! averages are the sums divided by the number of tasks, which the caller works out.

use vstd::prelude::*;

use crate::task::{Task, TaskKind};

verus! {

/// The number of CPU-bound tasks in `s`.
pub open spec fn count_cpu(s: Seq<Task>) -> nat
    decreases s.len(),
{
    if s.len() == 0 {
        0
    } else {
        count_cpu(s.drop_last()) + if s.last().kind == TaskKind::Cpu {
            1nat
        } else {
            0nat
        }
    }
}

/// A known duration, or zero when it is not known.
pub open spec fn or_zero(d: Option<u64>) -> nat {
    match d {
        Some(v) => v as nat,
        None => 0,
    }
}

/// Sum of the known wait times in `s`.
pub open spec fn total_wait(s: Seq<Task>) -> nat
    decreases s.len(),
{
    if s.len() == 0 {
        0
    } else {
        total_wait(s.drop_last()) + or_zero(s.last().spec_wait())
    }
}

/// Sum of the known turnaround times in `s`.
pub open spec fn total_turnaround(s: Seq<Task>) -> nat
    decreases s.len(),
{
    if s.len() == 0 {
        0
    } else {
        total_turnaround(s.drop_last()) + or_zero(s.last().spec_turnaround())
    }
}

/// The longest known wait time in `s`, zero when none is known.
pub open spec fn max_wait(s: Seq<Task>) -> nat
    decreases s.len(),
{
    if s.len() == 0 {
        0
    } else {
        let m = max_wait(s.drop_last());
        let w = or_zero(s.last().spec_wait());
        if w > m {
            w
        } else {
            m
        }
    }
}

/// Final statistics of a run.
pub struct Metrics {
    pub total_completed: usize,
    pub cpu_completed: usize,
    pub io_completed: usize,
    pub makespan_ns: u64,
    /// Sum of all known wait times; the average divides it by `total_completed`.
    pub total_wait_ns: u128,
    /// Sum of all known turnaround times; the average divides it by `total_completed`.
    pub total_turnaround_ns: u128,
    pub max_wait_ns: u64,
}

/// The sum of `n` durations fits comfortably in a `u128`.
proof fn lemma_totals_bounded(s: Seq<Task>)
    ensures
        total_wait(s) <= s.len() * (u64::MAX as nat),
        total_turnaround(s) <= s.len() * (u64::MAX as nat),
        max_wait(s) <= u64::MAX,
    decreases s.len(),
{
    if s.len() > 0 {
        lemma_totals_bounded(s.drop_last());
        assert((s.len() - 1) * (u64::MAX as nat) + u64::MAX == s.len() * (u64::MAX as nat))
            by (nonlinear_arith);
    }
}

proof fn lemma_step_bound(i: nat, total: nat)
    requires
        i < usize::MAX,
        total <= i * (u64::MAX as nat),
    ensures
        total + u64::MAX <= u128::MAX,
{
    assert(i * (u64::MAX as nat) <= (usize::MAX as nat) * (u64::MAX as nat)) by (nonlinear_arith)
        requires i < usize::MAX;
    assert((usize::MAX as nat) * (u64::MAX as nat) + u64::MAX <= u128::MAX) by (nonlinear_arith);
}

/// Law: the average wait never exceeds the longest wait: the sum of the waits is at
/// most the number of tasks times the longest one.
pub proof fn law_wait_sum_bounded_by_max(s: Seq<Task>)
    ensures
        total_wait(s) <= s.len() * max_wait(s),
    decreases s.len(),
{
    if s.len() > 0 {
        let init = s.drop_last();
        law_wait_sum_bounded_by_max(init);
        lemma_max_wait_monotone(s);
        let m = max_wait(s);
        let mi = max_wait(init);
        assert(init.len() * mi <= init.len() * m) by (nonlinear_arith)
            requires mi <= m;
        assert(init.len() * m + m == s.len() * m) by (nonlinear_arith)
            requires init.len() + 1 == s.len();
    }
}

proof fn lemma_max_wait_monotone(s: Seq<Task>)
    requires
        s.len() > 0,
    ensures
        max_wait(s.drop_last()) <= max_wait(s),
        or_zero(s.last().spec_wait()) <= max_wait(s),
{
}

/// Law: the CPU-bound count never exceeds the number of tasks, so the IO-bound
/// count that `compute` reports (the rest) and the CPU-bound count add up to all tasks.
pub proof fn law_kind_counts_add_up(s: Seq<Task>)
    ensures
        count_cpu(s) <= s.len(),
    decreases s.len(),
{
    if s.len() > 0 {
        law_kind_counts_add_up(s.drop_last());
    }
}

/// Law: the CPU-bound count counts every task. The empty list has none; appending
/// a CPU-bound task adds exactly one, and appending an IO-bound task adds none.
pub proof fn law_cpu_count_counts_each_task(s: Seq<Task>, t: Task)
    ensures
        count_cpu(Seq::<Task>::empty()) == 0,
        count_cpu(s.push(t)) == count_cpu(s) + if t.kind == TaskKind::Cpu {
            1int
        } else {
            0int
        },
{
    assert(s.push(t).drop_last() =~= s);
}

/// Law: the CPU-bound count is the number of tasks of the list whose kind is CPU:
/// the length of the list filtered to its CPU-bound tasks.
pub proof fn law_cpu_count_is_filtered_length(s: Seq<Task>)
    ensures
        count_cpu(s) == s.filter(|t: Task| t.kind == TaskKind::Cpu).len(),
    decreases s.len(),
{
    reveal(Seq::filter);
    if s.len() > 0 {
        law_cpu_count_is_filtered_length(s.drop_last());
    }
}

/// Law: the wait and turnaround totals add up every task's known time: the empty
/// list sums to zero, and appending a task adds exactly its known wait (and
/// turnaround), or nothing when that time is not known.
pub proof fn law_totals_add_each_task(s: Seq<Task>, t: Task)
    ensures
        total_wait(Seq::<Task>::empty()) == 0,
        total_turnaround(Seq::<Task>::empty()) == 0,
        total_wait(s.push(t)) == total_wait(s) + match t.spec_wait() {
            Some(w) => w as int,
            None => 0int,
        },
        total_turnaround(s.push(t)) == total_turnaround(s) + match t.spec_turnaround() {
            Some(d) => d as int,
            None => 0int,
        },
{
    assert(s.push(t).drop_last() =~= s);
}

/// Law: the longest wait is at least every known wait of the list, and it is one of
/// them (or zero when none is known).
pub proof fn law_max_wait_is_largest_known_wait(s: Seq<Task>)
    ensures
        forall|i: int|
            0 <= i < s.len() ==> (#[trigger] s[i].spec_wait() matches Some(w) ==> w <= max_wait(s)),
        max_wait(s) == 0 || exists|i: int|
            0 <= i < s.len() && #[trigger] s[i].spec_wait() == Some(max_wait(s) as u64),
    decreases s.len(),
{
    if s.len() > 0 {
        let init = s.drop_last();
        law_max_wait_is_largest_known_wait(init);
        assert forall|i: int|
            0 <= i < s.len() implies (#[trigger] s[i].spec_wait() matches Some(w) ==> w
            <= max_wait(s)) by {
            if i < s.len() - 1 {
                assert(s[i] == init[i]);
            }
        }
        if max_wait(s) != 0 {
            if max_wait(s) == max_wait(init) {
                let k = choose|i: int|
                    0 <= i < init.len() && #[trigger] init[i].spec_wait() == Some(
                        max_wait(init) as u64,
                    );
                assert(s[k] == init[k]);
            } else {
                assert(s[s.len() - 1].spec_wait() == Some(max_wait(s) as u64));
            }
        }
    }
}

impl Metrics {
    /// Computes the statistics of `tasks`, finished over `makespan_ns`.
    pub fn compute(tasks: &[Task], makespan_ns: u64) -> (m: Metrics)
        ensures
            m.total_completed == tasks@.len(),
            m.cpu_completed == count_cpu(tasks@),
            m.io_completed == tasks@.len() - count_cpu(tasks@),
            m.makespan_ns == makespan_ns,
            m.total_wait_ns == total_wait(tasks@),
            m.total_turnaround_ns == total_turnaround(tasks@),
            m.max_wait_ns == max_wait(tasks@),
    {
        let n = tasks.len();
        let mut cpu: usize = 0;
        let mut wait_sum: u128 = 0;
        let mut turnaround_sum: u128 = 0;
        let mut max_w: u64 = 0;
        let mut i: usize = 0;
        while i < n
            invariant
                n == tasks@.len(),
                i <= n,
                cpu == count_cpu(tasks@.take(i as int)),
                cpu <= i,
                wait_sum == total_wait(tasks@.take(i as int)),
                turnaround_sum == total_turnaround(tasks@.take(i as int)),
                max_w == max_wait(tasks@.take(i as int)),
            decreases n - i,
        {
            let ghost prefix = tasks@.take(i as int);
            let ghost next = tasks@.take(i + 1);
            assert(next.drop_last() =~= prefix);
            proof {
                lemma_totals_bounded(prefix);
                lemma_step_bound(i as nat, total_wait(prefix));
                lemma_step_bound(i as nat, total_turnaround(prefix));
            }
            let t = &tasks[i];
            if t.kind == TaskKind::Cpu {
                cpu = cpu + 1;
            }
            match t.wait_time() {
                Some(w) => {
                    wait_sum = wait_sum + w as u128;
                    if w > max_w {
                        max_w = w;
                    }
                },
                None => {},
            }
            match t.turnaround_time() {
                Some(d) => {
                    turnaround_sum = turnaround_sum + d as u128;
                },
                None => {},
            }
            i = i + 1;
        }
        assert(tasks@.take(n as int) =~= tasks@);
        Metrics {
            total_completed: n,
            cpu_completed: cpu,
            io_completed: n - cpu,
            makespan_ns,
            total_wait_ns: wait_sum,
            total_turnaround_ns: turnaround_sum,
            max_wait_ns: max_w,
        }
    }
}

} // verus!
