//! The dispatch queue between the generator and the workers. A task is handed out
//! only when a worker slot is free and the task's CPU cost fits under the cap.

use vstd::prelude::*;

use crate::task::{Task, TaskKind, CPU_CAP};
use std::collections::VecDeque;

verus! {

broadcast use vstd::std_specs::vecdeque::group_vec_dequeue_axioms;

/// Which task the queue hands out next.
#[derive(Debug, Clone, Copy, PartialEq, Eq, Structural)]
pub enum ScheduleMode {
    /// Only the front task, and only when it fits the CPU budget.
    Fifo,
    /// The best task that fits: highest priority first, IO before CPU on ties,
    /// earliest arrival among equals.
    Optimized,
}

/// The abstract state of a queue: the pending tasks in arrival order, the mode, the
/// CPU percentage in use by running tasks, and the busy and total worker counts.
pub struct QueueState {
    pub pending: Seq<Task>,
    pub mode: ScheduleMode,
    pub cpu: u32,
    pub active: usize,
    pub max: usize,
}

/// Order of kinds among tasks of equal priority: IO (the cheaper) first.
pub open spec fn kind_rank(k: TaskKind) -> int {
    match k {
        TaskKind::Io => 0,
        TaskKind::Cpu => 1,
    }
}

/// `a` is scheduled strictly before `b`: smaller priority number, or the same
/// priority and a smaller kind rank.
pub open spec fn sched_before(a: Task, b: Task) -> bool {
    ||| a.priority < b.priority
    ||| (a.priority == b.priority && kind_rank(a.kind) < kind_rank(b.kind))
}

impl QueueState {
    /// The budget holds: running tasks use at most the cap, and no more workers are
    /// busy than there are.
    pub open spec fn wf(self) -> bool {
        &&& self.cpu <= CPU_CAP
        &&& self.active <= self.max
    }

    /// Running `t` as well keeps the CPU use within the cap.
    pub open spec fn fits(self, t: Task) -> bool {
        self.cpu + t.kind.cost() <= CPU_CAP
    }

    /// A worker slot is free.
    pub open spec fn has_free_worker(self) -> bool {
        self.active < self.max
    }

    /// Index `i` holds the task that the optimized policy picks: it fits, no fitting
    /// task is scheduled before it, and every fitting task in front of it is
    /// scheduled after it.
    pub open spec fn is_best_fit(self, i: int) -> bool {
        &&& 0 <= i < self.pending.len()
        &&& self.fits(self.pending[i])
        &&& forall|j: int|
            0 <= j < self.pending.len() && #[trigger] self.fits(self.pending[j]) ==> !sched_before(
                self.pending[j],
                self.pending[i],
            )
        &&& forall|j: int|
            0 <= j < i && #[trigger] self.fits(self.pending[j]) ==> sched_before(
                self.pending[i],
                self.pending[j],
            )
    }

    /// Some pending task fits the budget.
    pub open spec fn some_fit(self) -> bool {
        exists|j: int| 0 <= j < self.pending.len() && #[trigger] self.fits(self.pending[j])
    }

    /// The index of the task that the next dispatch hands out, if any.
    pub open spec fn dispatch_index(self) -> Option<int> {
        if !self.has_free_worker() || self.pending.len() == 0 {
            None
        } else {
            match self.mode {
                ScheduleMode::Fifo => if self.fits(self.pending[0]) {
                    Some(0)
                } else {
                    None
                },
                ScheduleMode::Optimized => if exists|i: int| self.is_best_fit(i) {
                    Some(choose|i: int| self.is_best_fit(i))
                } else {
                    None
                },
            }
        }
    }

    /// The state after the task at `i` is handed to a worker.
    pub open spec fn after_dispatch(self, i: int) -> QueueState {
        QueueState {
            pending: self.pending.remove(i),
            mode: self.mode,
            cpu: (self.cpu + self.pending[i].kind.cost()) as u32,
            active: (self.active + 1) as usize,
            max: self.max,
        }
    }

    /// The state after a running task of kind `k` finished: its cost is given back
    /// (never below zero) and one fewer worker is busy (never below zero).
    pub open spec fn after_finish(self, k: TaskKind) -> QueueState {
        QueueState {
            pending: self.pending,
            mode: self.mode,
            cpu: if self.cpu >= k.cost() {
                (self.cpu - k.cost()) as u32
            } else {
                0u32
            },
            active: if self.active > 0 {
                (self.active - 1) as usize
            } else {
                0usize
            },
            max: self.max,
        }
    }

    /// The state after `t` joined the back of the queue.
    pub open spec fn after_push(self, t: Task) -> QueueState {
        QueueState {
            pending: self.pending.push(t),
            mode: self.mode,
            cpu: self.cpu,
            active: self.active,
            max: self.max,
        }
    }
}

/// There is at most one best-fit index.
pub proof fn lemma_best_fit_unique(s: QueueState, i: int, j: int)
    requires
        s.is_best_fit(i),
        s.is_best_fit(j),
    ensures
        i == j,
{
    if i < j {
        assert(s.fits(s.pending[i]));
        assert(sched_before(s.pending[j], s.pending[i]));
    } else if j < i {
        assert(s.fits(s.pending[j]));
        assert(sched_before(s.pending[i], s.pending[j]));
    }
}

/// The index a dispatch picks lies in the queue and its task fits the budget.
pub proof fn lemma_dispatch_index_fits(s: QueueState)
    ensures
        s.dispatch_index() matches Some(i) ==> 0 <= i < s.pending.len() && s.fits(s.pending[i])
            && s.has_free_worker(),
{
}

/// Law: no operation takes the queue out of its budget. Pushing, dispatching and
/// finishing all keep the CPU in use at or under the cap and the busy workers at or
/// under the worker count.
pub proof fn law_budget_is_kept(s: QueueState, t: Task, k: TaskKind)
    requires
        s.wf(),
    ensures
        s.after_push(t).wf(),
        s.after_finish(k).wf(),
        s.dispatch_index() matches Some(i) ==> s.after_dispatch(i).wf(),
{
    lemma_dispatch_index_fits(s);
}

/// Law: when a dispatched task finishes, the budget is back where it was before the
/// dispatch: same CPU in use, same number of busy workers, and the task is gone.
pub proof fn law_finish_undoes_dispatch(s: QueueState, i: int)
    requires
        s.wf(),
        s.dispatch_index() == Some(i),
    ensures
        s.after_dispatch(i).after_finish(s.pending[i].kind) == (QueueState {
            pending: s.pending.remove(i),
            ..s
        }),
{
    lemma_dispatch_index_fits(s);
}

/// Law: a dispatch neither loses nor duplicates tasks: putting the dispatched task
/// back at its place gives the queue as it was, and the pending tasks together with
/// the dispatched one are the same multiset as before.
pub proof fn law_dispatch_conserves_tasks(s: QueueState, i: int)
    requires
        s.dispatch_index() == Some(i),
    ensures
        s.after_dispatch(i).pending.insert(i, s.pending[i]) == s.pending,
        s.after_dispatch(i).pending.to_multiset().insert(s.pending[i]) == s.pending.to_multiset(),
{
    lemma_dispatch_index_fits(s);
    let rest = s.after_dispatch(i).pending;
    assert(rest.insert(i, s.pending[i]) =~= s.pending);
    s.pending.to_multiset_ensures();
    assert(s.pending.contains(s.pending[i]));
    assert(rest.to_multiset() =~= s.pending.to_multiset().remove(s.pending[i]));
    assert(rest.to_multiset().insert(s.pending[i]) =~= s.pending.to_multiset()) by {
        broadcast use vstd::multiset::group_multiset_axioms;
    }
}

/// Law: no task is handed out while every worker is busy, nor from an empty queue.
pub proof fn law_no_dispatch_without_worker_or_task(s: QueueState)
    requires
        !s.has_free_worker() || s.pending.len() == 0,
    ensures
        s.dispatch_index() is None,
{
}

/// Law: FIFO hands tasks out in arrival order. It only ever takes the front task,
/// the rest keep their order, and when a worker is free but nothing is handed out,
/// the front task does not fit.
pub proof fn law_fifo_takes_front_only(s: QueueState)
    requires
        s.mode == ScheduleMode::Fifo,
    ensures
        s.dispatch_index() matches Some(i) ==> i == 0 && s.after_dispatch(i).pending
            == s.pending.subrange(1, s.pending.len() as int),
        s.has_free_worker() && s.pending.len() > 0 && s.dispatch_index() is None ==> !s.fits(
            s.pending[0],
        ),
{
}

/// Law: the optimized policy is work-conserving: with a worker free and some pending
/// task that fits, it always hands one out.
pub proof fn law_optimized_is_work_conserving(s: QueueState)
    requires
        s.mode == ScheduleMode::Optimized,
        s.has_free_worker(),
        s.some_fit(),
    ensures
        s.dispatch_index() is Some,
{
    lemma_best_fit_exists(s);
}

/// Among the fitting tasks, a first one that no other fitting task is scheduled
/// before exists whenever some task fits.
pub proof fn lemma_best_fit_exists(s: QueueState)
    requires
        s.some_fit(),
    ensures
        exists|i: int| s.is_best_fit(i),
    decreases s.pending.len(),
{
    let n = s.pending.len();
    let last = s.pending[n - 1];
    let init = QueueState { pending: s.pending.drop_last(), ..s };
    assert forall|j: int| 0 <= j < n - 1 implies init.pending[j] == s.pending[j] by {}
    if init.some_fit() {
        lemma_best_fit_exists(init);
        let b = choose|i: int| init.is_best_fit(i);
        assert(init.pending[b] == s.pending[b]);
        if s.fits(last) && sched_before(last, s.pending[b]) {
            assert forall|j: int|
                0 <= j < n && #[trigger] s.fits(s.pending[j]) implies !sched_before(
                s.pending[j],
                last,
            ) by {
                if j < n - 1 {
                    assert(init.fits(init.pending[j]));
                }
            }
            assert forall|j: int|
                0 <= j < n - 1 && #[trigger] s.fits(s.pending[j]) implies sched_before(
                last,
                s.pending[j],
            ) by {
                assert(init.fits(init.pending[j]));
                assert(!sched_before(init.pending[j], init.pending[b]));
            }
            assert(s.is_best_fit(n - 1));
        } else {
            assert forall|j: int|
                0 <= j < n && #[trigger] s.fits(s.pending[j]) implies !sched_before(
                s.pending[j],
                s.pending[b],
            ) by {
                if j < n - 1 {
                    assert(init.fits(init.pending[j]));
                }
            }
            assert forall|j: int|
                0 <= j < b && #[trigger] s.fits(s.pending[j]) implies sched_before(
                s.pending[b],
                s.pending[j],
            ) by {
                assert(init.fits(init.pending[j]));
            }
            assert(s.is_best_fit(b));
        }
    } else {
        let w = choose|j: int| 0 <= j < n && #[trigger] s.fits(s.pending[j]);
        if w < n - 1 {
            assert(init.fits(init.pending[w]));
        }
        assert forall|j: int| 0 <= j < n - 1 implies !#[trigger] s.fits(s.pending[j]) by {
            if s.fits(s.pending[j]) {
                assert(init.fits(init.pending[j]));
            }
        }
        assert(s.is_best_fit(n - 1));
    }
}

/// Law: from the same state, the optimized policy hands out a task whenever FIFO
/// would: it is never blocked where FIFO is not.
pub proof fn law_optimized_dispatches_when_fifo_does(s: QueueState)
    requires
        (QueueState { mode: ScheduleMode::Fifo, ..s }).dispatch_index() is Some,
    ensures
        (QueueState { mode: ScheduleMode::Optimized, ..s }).dispatch_index() is Some,
{
    let f = QueueState { mode: ScheduleMode::Fifo, ..s };
    let o = QueueState { mode: ScheduleMode::Optimized, ..s };
    assert(o.fits(o.pending[0]));
    law_optimized_is_work_conserving(o);
}

/// Law: the optimized pick has the highest priority (smallest number) among all
/// pending tasks that fit, and among those the IO kind when there is one.
pub proof fn law_optimized_pick_is_best(s: QueueState, i: int, j: int)
    requires
        s.mode == ScheduleMode::Optimized,
        s.dispatch_index() == Some(i),
        0 <= j < s.pending.len(),
        s.fits(s.pending[j]),
    ensures
        s.pending[i].priority <= s.pending[j].priority,
        s.pending[i].priority == s.pending[j].priority ==> kind_rank(s.pending[i].kind)
            <= kind_rank(s.pending[j].kind),
{
    assert(s.is_best_fit(i));
}

/// Total CPU cost of the tasks of kinds `running`.
pub open spec fn total_cost(running: Seq<TaskKind>) -> int
    decreases running.len(),
{
    if running.len() == 0 {
        0
    } else {
        total_cost(running.drop_last()) + running.last().cost()
    }
}

/// Law: the total cost adds up each running task: none for no task, and one more
/// task adds exactly its kind's cost (10 for IO, 35 for CPU).
pub proof fn law_total_cost_adds_each_task(running: Seq<TaskKind>, k: TaskKind)
    ensures
        total_cost(Seq::<TaskKind>::empty()) == 0,
        total_cost(running.push(k)) == total_cost(running) + if k == TaskKind::Io {
            10int
        } else {
            35int
        },
{
    assert(running.push(k).drop_last() =~= running);
}

/// The budget of `s` accounts exactly for the running tasks of kinds `running`: the
/// CPU in use is the sum of their costs and the busy workers are as many as they are.
pub open spec fn accounts_for(s: QueueState, running: Seq<TaskKind>) -> bool {
    s.cpu == total_cost(running) && s.active == running.len()
}

proof fn lemma_total_cost_remove(running: Seq<TaskKind>, j: int)
    requires
        0 <= j < running.len(),
    ensures
        total_cost(running.remove(j)) + running[j].cost() == total_cost(running),
    decreases running.len(),
{
    let n = running.len();
    if j == n - 1 {
        assert(running.remove(j) =~= running.drop_last());
    } else {
        let init = running.drop_last();
        lemma_total_cost_remove(init, j);
        assert(running.remove(j).drop_last() =~= init.remove(j));
        assert(running.remove(j).last() == running.last());
    }
}

/// Law: the budget always matches the running tasks. If the CPU in use and the busy
/// workers account for a set of running tasks, then after a dispatch they account
/// for those plus the dispatched task, and after one of them finishes they account
/// for the rest: the cost given back is always the cost that was charged.
pub proof fn law_budget_matches_running_tasks(s: QueueState, running: Seq<TaskKind>, j: int)
    requires
        accounts_for(s, running),
    ensures
        s.dispatch_index() matches Some(i) ==> accounts_for(
            s.after_dispatch(i),
            running.push(s.pending[i].kind),
        ),
        0 <= j < running.len() ==> accounts_for(s.after_finish(running[j]), running.remove(j)),
{
    lemma_dispatch_index_fits(s);
    if let Some(i) = s.dispatch_index() {
        assert(running.push(s.pending[i].kind).drop_last() =~= running);
    }
    if 0 <= j < running.len() {
        lemma_total_cost_remove(running, j);
        lemma_total_cost_nonneg(running.remove(j));
    }
}

proof fn lemma_total_cost_nonneg(running: Seq<TaskKind>)
    ensures
        total_cost(running) >= 0,
    decreases running.len(),
{
    if running.len() > 0 {
        lemma_total_cost_nonneg(running.drop_last());
    }
}

/// The queue of tasks waiting for a worker, with the CPU budget of the running ones.
pub struct TaskQueue {
    inner: VecDeque<Task>,
    mode: ScheduleMode,
    current_cpu: u32,
    active_workers: usize,
    max_workers: usize,
}

impl View for TaskQueue {
    type V = QueueState;

    closed spec fn view(&self) -> QueueState {
        QueueState {
            pending: self.inner@,
            mode: self.mode,
            cpu: self.current_cpu,
            active: self.active_workers,
            max: self.max_workers,
        }
    }
}

impl TaskQueue {
    /// The queue's invariant: the budget holds.
    pub open spec fn wf(&self) -> bool {
        self@.wf()
    }

    /// An empty queue with no task running.
    pub fn new(max_workers: usize, mode: ScheduleMode) -> (q: TaskQueue)
        ensures
            q.wf(),
            q@ == (QueueState {
                pending: Seq::empty(),
                mode,
                cpu: 0,
                active: 0,
                max: max_workers,
            }),
    {
        TaskQueue {
            inner: VecDeque::new(),
            mode,
            current_cpu: 0,
            active_workers: 0,
            max_workers,
        }
    }

    /// Adds `task` at the back of the queue (arrival order).
    pub fn push(&mut self, task: Task)
        requires
            old(self).wf(),
        ensures
            final(self).wf(),
            final(self)@ == old(self)@.after_push(task),
    {
        self.inner.push_back(task);
    }

    /// Hands out the next task, if one may run now. `None` when every worker is busy,
    /// the queue is empty, or (by the mode's policy) no task fits the CPU budget.
    pub fn try_next(&mut self) -> (r: Option<Task>)
        requires
            old(self).wf(),
        ensures
            final(self).wf(),
            match old(self)@.dispatch_index() {
                Some(i) => r == Some(old(self)@.pending[i]) && final(self)@ == old(
                    self,
                )@.after_dispatch(i),
                None => r is None && final(self)@ == old(self)@,
            },
    {
        if self.active_workers >= self.max_workers {
            return None;
        }
        match self.mode {
            ScheduleMode::Fifo => self.try_next_fifo(),
            ScheduleMode::Optimized => self.try_next_optimized(),
        }
    }

    /// FIFO dispatch: the front task, only if it fits within the remaining budget.
    fn try_next_fifo(&mut self) -> (r: Option<Task>)
        requires
            old(self).wf(),
            old(self)@.has_free_worker(),
            old(self)@.mode == ScheduleMode::Fifo,
        ensures
            final(self).wf(),
            match old(self)@.dispatch_index() {
                Some(i) => r == Some(old(self)@.pending[i]) && final(self)@ == old(
                    self,
                )@.after_dispatch(i),
                None => r is None && final(self)@ == old(self)@,
            },
    {
        if self.inner.len() == 0 {
            return None;
        }
        let cost = self.inner[0].kind.cpu_cost();
        if self.current_cpu + cost <= CPU_CAP {
            let ghost before = self@;
            let task = self.inner.pop_front().unwrap();
            self.current_cpu = self.current_cpu + cost;
            self.active_workers = self.active_workers + 1;
            assert(self@.pending =~= before.pending.remove(0));
            Some(task)
        } else {
            None
        }
    }

    /// Index of the best task that fits, scanning the whole queue.
    fn best_fit_index(&self) -> (r: Option<usize>)
        requires
            self.wf(),
        ensures
            match r {
                Some(i) => self@.is_best_fit(i as int),
                None => !self@.some_fit(),
            },
    {
        let len = self.inner.len();
        let mut best: Option<usize> = None;
        let mut i: usize = 0;
        while i < len
            invariant
                len == self@.pending.len(),
                i <= len,
                self.wf(),
                match best {
                    Some(b) => {
                        &&& b < i
                        &&& self@.fits(self@.pending[b as int])
                        &&& forall|j: int|
                            0 <= j < i && #[trigger] self@.fits(self@.pending[j]) ==> !sched_before(
                                self@.pending[j],
                                self@.pending[b as int],
                            )
                        &&& forall|j: int|
                            0 <= j < b && #[trigger] self@.fits(self@.pending[j]) ==> sched_before(
                                self@.pending[b as int],
                                self@.pending[j],
                            )
                    },
                    None => forall|j: int| 0 <= j < i ==> !#[trigger] self@.fits(self@.pending[j]),
                },
            decreases len - i,
        {
            let t = &self.inner[i];
            let cost = t.kind.cpu_cost();
            if self.current_cpu + cost <= CPU_CAP {
                match best {
                    None => {
                        best = Some(i);
                    },
                    Some(b) => {
                        let bt = &self.inner[b];
                        let t_rank: u8 = match t.kind {
                            TaskKind::Io => 0,
                            TaskKind::Cpu => 1,
                        };
                        let b_rank: u8 = match bt.kind {
                            TaskKind::Io => 0,
                            TaskKind::Cpu => 1,
                        };
                        if t.priority < bt.priority || (t.priority == bt.priority && t_rank
                            < b_rank) {
                            best = Some(i);
                        }
                    },
                }
            }
            i = i + 1;
        }
        proof {
            match best {
                Some(b) => {},
                None => {
                    assert(!self@.some_fit());
                },
            }
        }
        best
    }

    /// Optimized dispatch: the best task that fits anywhere in the queue.
    fn try_next_optimized(&mut self) -> (r: Option<Task>)
        requires
            old(self).wf(),
            old(self)@.has_free_worker(),
            old(self)@.mode == ScheduleMode::Optimized,
        ensures
            final(self).wf(),
            match old(self)@.dispatch_index() {
                Some(i) => r == Some(old(self)@.pending[i]) && final(self)@ == old(
                    self,
                )@.after_dispatch(i),
                None => r is None && final(self)@ == old(self)@,
            },
    {
        if self.inner.len() == 0 {
            return None;
        }
        match self.best_fit_index() {
            Some(idx) => {
                let ghost before = self@;
                proof {
                    let c = choose|i: int| before.is_best_fit(i);
                    lemma_best_fit_unique(before, c, idx as int);
                }
                let task = self.inner.remove(idx).unwrap();
                let cost = task.kind.cpu_cost();
                self.current_cpu = self.current_cpu + cost;
                self.active_workers = self.active_workers + 1;
                Some(task)
            },
            None => {
                proof {
                    let s = self@;
                    if exists|i: int| s.is_best_fit(i) {
                        let c = choose|i: int| s.is_best_fit(i);
                        assert(s.fits(s.pending[c]));
                    }
                }
                None
            },
        }
    }

    /// Called when a running task of kind `kind` finished: its cost goes back to the
    /// budget (never below zero) and one worker fewer is busy (never below zero).
    pub fn task_finished(&mut self, kind: &TaskKind)
        requires
            old(self).wf(),
        ensures
            final(self).wf(),
            final(self)@ == old(self)@.after_finish(*kind),
    {
        let cost = kind.cpu_cost();
        if self.current_cpu >= cost {
            self.current_cpu = self.current_cpu - cost;
        } else {
            self.current_cpu = 0;
        }
        if self.active_workers > 0 {
            self.active_workers = self.active_workers - 1;
        }
    }

    /// Number of pending tasks.
    pub fn len(&self) -> (n: usize)
        ensures
            n == self@.pending.len(),
    {
        self.inner.len()
    }

    /// Whether no task is pending.
    pub fn is_empty(&self) -> (b: bool)
        ensures
            b == (self@.pending.len() == 0),
    {
        self.inner.len() == 0
    }

    /// CPU percentage used by the running tasks.
    pub fn current_cpu(&self) -> (c: u32)
        ensures
            c == self@.cpu,
    {
        self.current_cpu
    }

    /// Number of busy workers.
    pub fn active_workers(&self) -> (n: usize)
        ensures
            n == self@.active,
    {
        self.active_workers
    }

    /// Number of workers in all.
    pub fn max_workers(&self) -> (n: usize)
        ensures
            n == self@.max,
    {
        self.max_workers
    }

    /// The scheduling mode.
    pub fn mode(&self) -> (m: ScheduleMode)
        ensures
            m == self@.mode,
    {
        self.mode
    }
}

} // verus!
