//! The decisions of the worker pool: what a worker does next with the shared state,
//! how the collector treats each completion message, and how the generator paces
//! submissions. Threads, locks and channels run these decisions from outside.

use vstd::prelude::*;

use crate::queue::{QueueState, ScheduleMode, TaskQueue};
use crate::task::{Task, TaskKind};

verus! {

/// What a worker reports back: a finished task, or that it has shut down.
pub enum CompletionMsg {
    Done(Task),
    WorkerExited,
}

/// What a worker does after looking at the shared state.
pub enum WorkerAction {
    /// Execute the given task, already removed from the queue and counted against the budget.
    Run(Task),
    /// Stop: the run is shut down, or all work is complete.
    Exit,
    /// Nothing to do yet: sleep until woken.
    Wait,
}

/// Everything the workers and the generator share behind one lock.
pub struct SharedState {
    pub queue: TaskQueue,
    /// Set by the generator once every task has been submitted.
    pub generation_done: bool,
    /// Set once the run is over, to stop any worker still waiting.
    pub shutdown: bool,
}

/// All work is complete: nothing more will be submitted, nothing is pending and
/// nothing is running.
pub open spec fn all_work_done(generation_done: bool, q: QueueState) -> bool {
    generation_done && q.pending.len() == 0 && q.active == 0
}

impl SharedState {
    /// Fresh shared state: an empty queue, and neither flag set.
    pub fn new(max_workers: usize, mode: ScheduleMode) -> (s: SharedState)
        ensures
            s.queue.wf(),
            s.queue@ == (QueueState {
                pending: Seq::empty(),
                mode,
                cpu: 0,
                active: 0,
                max: max_workers,
            }),
            !s.generation_done,
            !s.shutdown,
    {
        SharedState { queue: TaskQueue::new(max_workers, mode), generation_done: false, shutdown: false }
    }

    /// Queues `task`, stamping it as enqueued at `now` (nanoseconds since the start).
    pub fn submit(&mut self, task: Task, now: u64)
        requires
            old(self).queue.wf(),
        ensures
            final(self).queue.wf(),
            final(self).queue@ == old(self).queue@.after_push(
                Task { enqueued_at: Some(now), ..task },
            ),
            final(self).generation_done == old(self).generation_done,
            final(self).shutdown == old(self).shutdown,
    {
        let mut task = task;
        task.enqueued_at = Some(now);
        self.queue.push(task);
    }

    /// Records that the generator has submitted its last task.
    pub fn signal_generation_done(&mut self)
        ensures
            final(self).generation_done,
            final(self).shutdown == old(self).shutdown,
            final(self).queue == old(self).queue,
    {
        self.generation_done = true;
    }

    /// Records that the run is over; every worker then exits.
    pub fn signal_shutdown(&mut self)
        ensures
            final(self).shutdown,
            final(self).generation_done == old(self).generation_done,
            final(self).queue == old(self).queue,
    {
        self.shutdown = true;
    }

    /// A task of kind `kind` finished: its budget goes back to the queue.
    pub fn task_finished(&mut self, kind: &TaskKind)
        requires
            old(self).queue.wf(),
        ensures
            final(self).queue.wf(),
            final(self).queue@ == old(self).queue@.after_finish(*kind),
            final(self).generation_done == old(self).generation_done,
            final(self).shutdown == old(self).shutdown,
    {
        self.queue.task_finished(kind);
    }

    /// CPU percentage in use, busy workers, and pending tasks, as the monitor reads them.
    pub fn snapshot(&self) -> (r: (u32, usize, usize))
        ensures
            r == (self.queue@.cpu, self.queue@.active, self.queue@.pending.len() as usize),
    {
        (self.queue.current_cpu(), self.queue.active_workers(), self.queue.len())
    }

    /// A worker's decision. After a shutdown it exits. Otherwise it takes the next
    /// task the queue hands out; failing that, it exits when all work is complete and
    /// waits otherwise.
    pub fn next_action(&mut self) -> (a: WorkerAction)
        requires
            old(self).queue.wf(),
        ensures
            final(self).queue.wf(),
            final(self).generation_done == old(self).generation_done,
            final(self).shutdown == old(self).shutdown,
            old(self).shutdown ==> a is Exit && final(self).queue@ == old(self).queue@,
            !old(self).shutdown ==> match old(self).queue@.dispatch_index() {
                Some(i) => a == WorkerAction::Run(old(self).queue@.pending[i])
                    && final(self).queue@ == old(self).queue@.after_dispatch(i),
                None => final(self).queue@ == old(self).queue@ && (if all_work_done(
                    old(self).generation_done,
                    old(self).queue@,
                ) {
                    a is Exit
                } else {
                    a is Wait
                }),
            },
    {
        if self.shutdown {
            return WorkerAction::Exit;
        }
        match self.queue.try_next() {
            Some(task) => WorkerAction::Run(task),
            None => {
                if self.generation_done && self.queue.is_empty() && self.queue.active_workers()
                    == 0 {
                    WorkerAction::Exit
                } else {
                    WorkerAction::Wait
                }
            },
        }
    }
}

/// How the collector answers one completion message.
pub enum CollectStep {
    /// A task finished and was recorded: give its kind's cost back to the budget.
    Release(TaskKind),
    /// A worker exited; others are still running.
    Continue,
    /// The last worker exited: the run is over.
    Stop,
}

/// Collects finished tasks and counts exited workers on the main thread.
pub struct Collector {
    completed: Vec<Task>,
    workers_exited: usize,
    num_workers: usize,
}

/// The abstract state of a collector.
pub struct CollectorState {
    pub completed: Seq<Task>,
    pub exited: usize,
    pub workers: usize,
}

impl View for Collector {
    type V = CollectorState;

    closed spec fn view(&self) -> CollectorState {
        CollectorState {
            completed: self.completed@,
            exited: self.workers_exited,
            workers: self.num_workers,
        }
    }
}

impl Collector {
    /// The collector's invariant: no more workers exited than there are.
    pub open spec fn wf(&self) -> bool {
        self@.exited <= self@.workers
    }

    /// Every worker has exited.
    pub open spec fn done(&self) -> bool {
        self@.exited == self@.workers
    }

    /// A collector for `num_workers` workers, with nothing collected yet.
    pub fn new(num_workers: usize) -> (c: Collector)
        ensures
            c.wf(),
            c@ == (CollectorState { completed: Seq::empty(), exited: 0, workers: num_workers }),
    {
        Collector { completed: Vec::new(), workers_exited: 0, num_workers }
    }

    /// Handles one message: a finished task is recorded and its kind returned so its
    /// budget can be released; an exit is counted, and the last one ends the run.
    pub fn receive(&mut self, msg: CompletionMsg) -> (step: CollectStep)
        requires
            old(self).wf(),
            !old(self).done(),
        ensures
            final(self).wf(),
            final(self)@.workers == old(self)@.workers,
            match msg {
                CompletionMsg::Done(t) => {
                    &&& step == CollectStep::Release(t.kind)
                    &&& final(self)@.completed == old(self)@.completed.push(t)
                    &&& final(self)@.exited == old(self)@.exited
                },
                CompletionMsg::WorkerExited => {
                    &&& final(self)@.completed == old(self)@.completed
                    &&& final(self)@.exited == old(self)@.exited + 1
                    &&& (if final(self).done() {
                        step is Stop
                    } else {
                        step is Continue
                    })
                },
            },
    {
        match msg {
            CompletionMsg::Done(task) => {
                let kind = task.kind;
                self.completed.push(task);
                CollectStep::Release(kind)
            },
            CompletionMsg::WorkerExited => {
                self.workers_exited = self.workers_exited + 1;
                if self.workers_exited == self.num_workers {
                    CollectStep::Stop
                } else {
                    CollectStep::Continue
                }
            },
        }
    }

    /// Whether every worker has exited.
    pub fn is_done(&self) -> (b: bool)
        ensures
            b == self.done(),
    {
        self.workers_exited == self.num_workers
    }

    /// Number of workers that have exited so far.
    pub fn workers_exited(&self) -> (n: usize)
        ensures
            n == self@.exited,
    {
        self.workers_exited
    }

    /// The finished tasks, in the order they were reported.
    pub fn completed(&self) -> (v: &Vec<Task>)
        ensures
            v@ == self@.completed,
    {
        &self.completed
    }

    /// Hands over the finished tasks.
    pub fn into_completed(self) -> (v: Vec<Task>)
        ensures
            v@ == self@.completed,
    {
        self.completed
    }
}

/// Arrival gaps are replayed ten times faster than the workload states them.
pub const ARRIVAL_TIME_SCALE: u64 = 10;

/// The generator never sleeps longer than this between two submissions (ms).
pub const MAX_SUBMIT_SLEEP_MS: u64 = 3;

/// How long the generator sleeps before submitting a task that arrives at
/// `arrival_ms` when the previous one arrived at `last_arrival_ms`: a tenth of the
/// gap (never negative), at most 3 ms.
pub fn submit_delay_ms(arrival_ms: u64, last_arrival_ms: u64) -> (d: u64)
    ensures
        d == if arrival_ms >= last_arrival_ms {
            let scaled = (arrival_ms - last_arrival_ms) / ARRIVAL_TIME_SCALE as int;
            if scaled < MAX_SUBMIT_SLEEP_MS {
                scaled
            } else {
                MAX_SUBMIT_SLEEP_MS as int
            }
        } else {
            0
        },
{
    let gap = arrival_ms.saturating_sub(last_arrival_ms);
    let scaled = gap / ARRIVAL_TIME_SCALE;
    if scaled < MAX_SUBMIT_SLEEP_MS {
        scaled
    } else {
        MAX_SUBMIT_SLEEP_MS
    }
}

} // verus!
