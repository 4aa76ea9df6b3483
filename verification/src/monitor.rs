//! The monitor's log: one snapshot of the budget every sampling period.

use vstd::prelude::*;

verus! {

/// One reading: time since the monitor started (ns), CPU percentage in use, busy
/// workers, and pending tasks.
#[derive(Debug, Clone, Copy)]
pub struct Snapshot {
    pub elapsed_ns: u64,
    pub cpu_pct: u32,
    pub active_workers: usize,
    pub queue_len: usize,
}

/// The readings are in the order of their times.
pub open spec fn in_time_order(s: Seq<Snapshot>) -> bool {
    forall|i: int, j: int|
        0 <= i < j < s.len() ==> #[trigger] s[i].elapsed_ns <= #[trigger] s[j].elapsed_ns
}

/// Sum of the CPU readings.
pub open spec fn cpu_total(s: Seq<Snapshot>) -> nat
    decreases s.len(),
{
    if s.len() == 0 {
        0
    } else {
        cpu_total(s.drop_last()) + s.last().cpu_pct as nat
    }
}

/// Sum of the busy-worker readings.
pub open spec fn workers_total(s: Seq<Snapshot>) -> nat
    decreases s.len(),
{
    if s.len() == 0 {
        0
    } else {
        workers_total(s.drop_last()) + s.last().active_workers as nat
    }
}

/// The highest CPU reading, zero for an empty log.
pub open spec fn cpu_peak(s: Seq<Snapshot>) -> nat
    decreases s.len(),
{
    if s.len() == 0 {
        0
    } else {
        let m = cpu_peak(s.drop_last());
        if s.last().cpu_pct > m {
            s.last().cpu_pct as nat
        } else {
            m
        }
    }
}

/// All the snapshots of a run, in the order they were taken.
pub struct MonitorLog {
    pub snapshots: Vec<Snapshot>,
}

proof fn lemma_totals_bounded(s: Seq<Snapshot>)
    ensures
        cpu_total(s) <= s.len() * (u32::MAX as nat),
        workers_total(s) <= s.len() * (usize::MAX as nat),
        cpu_peak(s) <= u32::MAX,
    decreases s.len(),
{
    if s.len() > 0 {
        lemma_totals_bounded(s.drop_last());
        assert((s.len() - 1) * (u32::MAX as nat) + u32::MAX == s.len() * (u32::MAX as nat))
            by (nonlinear_arith);
        assert((s.len() - 1) * (usize::MAX as nat) + usize::MAX == s.len() * (usize::MAX as nat))
            by (nonlinear_arith);
    }
}

proof fn lemma_step_bound(i: nat, total: nat, bound: nat)
    requires
        i < usize::MAX,
        bound <= u64::MAX,
        total <= i * bound,
    ensures
        total + bound <= u128::MAX,
{
    assert(i * bound <= (usize::MAX as nat) * (u64::MAX as nat)) by (nonlinear_arith)
        requires i < usize::MAX, bound <= u64::MAX;
    assert((usize::MAX as nat) * (u64::MAX as nat) + u64::MAX <= u128::MAX) by (nonlinear_arith);
}

/// Law: the peak CPU reading is at least every reading, so the average never
/// exceeds it: the sum is at most the number of readings times the peak.
pub proof fn law_cpu_sum_bounded_by_peak(s: Seq<Snapshot>)
    ensures
        forall|i: int| 0 <= i < s.len() ==> #[trigger] s[i].cpu_pct <= cpu_peak(s),
        cpu_total(s) <= s.len() * cpu_peak(s),
    decreases s.len(),
{
    if s.len() > 0 {
        let init = s.drop_last();
        law_cpu_sum_bounded_by_peak(init);
        let m = cpu_peak(s);
        let mi = cpu_peak(init);
        assert forall|i: int| 0 <= i < s.len() implies #[trigger] s[i].cpu_pct <= m by {
            if i < s.len() - 1 {
                assert(s[i] == init[i]);
            }
        }
        assert(init.len() * mi <= init.len() * m) by (nonlinear_arith)
            requires mi <= m;
        assert(init.len() * m + m == s.len() * m) by (nonlinear_arith)
            requires init.len() + 1 == s.len();
    }
}

/// Law: the CPU and busy-worker sums add up every reading: the empty log sums to
/// zero, and one more reading adds exactly its CPU percentage (and its worker count),
/// whatever else it holds.
pub proof fn law_sums_add_each_reading(s: Seq<Snapshot>, r: Snapshot)
    ensures
        cpu_total(Seq::<Snapshot>::empty()) == 0,
        workers_total(Seq::<Snapshot>::empty()) == 0,
        cpu_total(s.push(r)) == cpu_total(s) + r.cpu_pct,
        workers_total(s.push(r)) == workers_total(s) + r.active_workers,
{
    assert(s.push(r).drop_last() =~= s);
}

/// Law: the CPU sums of two logs recorded one after the other add up.
pub proof fn law_cpu_sum_of_concatenation(a: Seq<Snapshot>, b: Seq<Snapshot>)
    ensures
        cpu_total(a + b) == cpu_total(a) + cpu_total(b),
        workers_total(a + b) == workers_total(a) + workers_total(b),
    decreases b.len(),
{
    if b.len() == 0 {
        assert(a + b =~= a);
    } else {
        law_cpu_sum_of_concatenation(a, b.drop_last());
        assert((a + b).drop_last() =~= a + b.drop_last());
    }
}

/// Law: the peak CPU reading is one of the readings (or zero for an empty log).
pub proof fn law_cpu_peak_is_a_reading(s: Seq<Snapshot>)
    ensures
        cpu_peak(s) == 0 || exists|i: int| 0 <= i < s.len() && #[trigger] s[i].cpu_pct == cpu_peak(s),
    decreases s.len(),
{
    if s.len() > 0 {
        let init = s.drop_last();
        law_cpu_peak_is_a_reading(init);
        if cpu_peak(s) != 0 && cpu_peak(s) == cpu_peak(init) {
            let k = choose|i: int| 0 <= i < init.len() && #[trigger] init[i].cpu_pct == cpu_peak(init);
            assert(s[k] == init[k]);
        }
    }
}

impl MonitorLog {
    /// An empty log.
    pub fn new() -> (log: MonitorLog)
        ensures
            log.snapshots@ == Seq::<Snapshot>::empty(),
            in_time_order(log.snapshots@),
    {
        MonitorLog { snapshots: Vec::new() }
    }

    /// Records one reading, taken `elapsed_ns` after the monitor started. Readings
    /// come from a monotone clock, so none is earlier than the last one recorded, and
    /// a log in time order stays in time order.
    pub fn record(&mut self, elapsed_ns: u64, cpu_pct: u32, active_workers: usize, queue_len: usize)
        requires
            old(self).snapshots@.len() > 0 ==> old(self).snapshots@.last().elapsed_ns <= elapsed_ns,
        ensures
            in_time_order(old(self).snapshots@) ==> in_time_order(final(self).snapshots@),
            final(self).snapshots@ == old(self).snapshots@.push(
                Snapshot { elapsed_ns, cpu_pct, active_workers, queue_len },
            ),
    {
        self.snapshots.push(Snapshot { elapsed_ns, cpu_pct, active_workers, queue_len });
    }

    /// Number of readings.
    pub fn len(&self) -> (n: usize)
        ensures
            n == self.snapshots@.len(),
    {
        self.snapshots.len()
    }

    /// Sum of the CPU readings; the average CPU use divides it by the number of
    /// readings (zero for an empty log).
    pub fn cpu_sum(&self) -> (r: u128)
        ensures
            r == cpu_total(self.snapshots@),
    {
        let n = self.snapshots.len();
        let mut sum: u128 = 0;
        let mut i: usize = 0;
        while i < n
            invariant
                n == self.snapshots@.len(),
                i <= n,
                sum == cpu_total(self.snapshots@.take(i as int)),
            decreases n - i,
        {
            let ghost prefix = self.snapshots@.take(i as int);
            assert(self.snapshots@.take(i + 1).drop_last() =~= prefix);
            proof {
                lemma_totals_bounded(prefix);
                lemma_step_bound(i as nat, cpu_total(prefix), u32::MAX as nat);
            }
            sum = sum + self.snapshots[i].cpu_pct as u128;
            i = i + 1;
        }
        assert(self.snapshots@.take(n as int) =~= self.snapshots@);
        sum
    }

    /// Sum of the busy-worker readings; the average divides it by the number of
    /// readings (zero for an empty log).
    pub fn active_workers_sum(&self) -> (r: u128)
        ensures
            r == workers_total(self.snapshots@),
    {
        let n = self.snapshots.len();
        let mut sum: u128 = 0;
        let mut i: usize = 0;
        while i < n
            invariant
                n == self.snapshots@.len(),
                i <= n,
                sum == workers_total(self.snapshots@.take(i as int)),
            decreases n - i,
        {
            let ghost prefix = self.snapshots@.take(i as int);
            assert(self.snapshots@.take(i + 1).drop_last() =~= prefix);
            proof {
                lemma_totals_bounded(prefix);
                lemma_step_bound(i as nat, workers_total(prefix), usize::MAX as nat);
            }
            sum = sum + self.snapshots[i].active_workers as u128;
            i = i + 1;
        }
        assert(self.snapshots@.take(n as int) =~= self.snapshots@);
        sum
    }

    /// The highest CPU reading of the run, zero for an empty log.
    pub fn peak_cpu(&self) -> (r: u32)
        ensures
            r == cpu_peak(self.snapshots@),
    {
        let n = self.snapshots.len();
        let mut peak: u32 = 0;
        let mut i: usize = 0;
        while i < n
            invariant
                n == self.snapshots@.len(),
                i <= n,
                peak == cpu_peak(self.snapshots@.take(i as int)),
            decreases n - i,
        {
            assert(self.snapshots@.take(i + 1).drop_last() =~= self.snapshots@.take(i as int));
            let c = self.snapshots[i].cpu_pct;
            if c > peak {
                peak = c;
            }
            i = i + 1;
        }
        assert(self.snapshots@.take(n as int) =~= self.snapshots@);
        peak
    }

    /// Time of the last reading: how long the monitor ran (zero for an empty log).
    pub fn total_time_ns(&self) -> (r: u64)
        ensures
            r == if self.snapshots@.len() == 0 {
                0
            } else {
                self.snapshots@.last().elapsed_ns
            },
    {
        let n = self.snapshots.len();
        if n == 0 {
            0
        } else {
            self.snapshots[n - 1].elapsed_ns
        }
    }
}

} // verus!
