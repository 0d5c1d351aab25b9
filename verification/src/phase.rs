//! The bookkeeping of one phase: what follows the reset, and when a burst of
//! tasks has settled.

use crate::dataset::generate;
use crate::error::StoreError;
use crate::request::is_population_plan;
use crate::request::lemma_write_plan_populates;
use crate::request::views;
use crate::request::write_plan;
use crate::request::Request;
use crate::request::RequestView;
use crate::retry::Fatal;
use vstd::prelude::*;

verus! {

/// Where a phase stands after one more task has ended.
#[derive(Debug, Clone)]
pub enum Progress {
    /// Tasks are still running.
    Wait,
    /// Every task has ended well: the phase is complete.
    Done,
    /// A task gave up: the run ends.
    Halt(Fatal),
}

/// Counts the tasks of a phase that have not ended yet.
#[derive(Debug, Clone, Copy, PartialEq, Eq, Structural)]
pub struct FanIn {
    outstanding: usize,
}

/// The request that opens a write phase.
pub fn reset_request() -> (request: Request)
    ensures
        request@ == RequestView::Reset,
{
    Request::Reset
}

/// Decides what follows the reset. Only when the reset succeeded are the
/// creating requests made: those of a fresh data set of `n` pairs. A failed
/// reset ends the run, with no retry.
pub fn begin_writes(reset: Result<(), StoreError>, n: u64) -> (next: Result<Vec<Request>, Fatal>)
    ensures
        match reset {
            Ok(_) => next matches Ok(plan) && is_population_plan(views(plan@), n as nat),
            Err(e) => next == Err::<Vec<Request>, Fatal>(
                Fatal { error: e, class: e.class(), retries: 0 },
            ),
        },
{
    match reset {
        Ok(_) => {
            let data = generate(n);
            let ghost pairs = data@;
            let plan = write_plan(data);
            proof {
                lemma_write_plan_populates(plan@, pairs, n as nat);
            }
            Ok(plan)
        },
        Err(e) => {
            let class = e.classify();
            Err(Fatal { error: e, class, retries: 0 })
        },
    }
}

/// The number of tasks still out after one more has ended.
pub open spec fn one_less(outstanding: usize) -> usize {
    if outstanding > 0 {
        (outstanding - 1) as usize
    } else {
        0
    }
}

/// Where a phase stands when a task has ended with `result` and `left` tasks
/// are still out.
pub open spec fn progress_of(result: Result<(), Fatal>, left: usize) -> Progress {
    match result {
        Err(fatal) => Progress::Halt(fatal),
        Ok(_) => if left == 0 {
            Progress::Done
        } else {
            Progress::Wait
        },
    }
}

impl FanIn {
    /// The number of tasks that have not ended yet.
    pub closed spec fn left(&self) -> usize {
        self.outstanding
    }

    /// The count for a burst of `tasks` tasks.
    pub fn new(tasks: usize) -> (f: FanIn)
        ensures
            f.left() == tasks,
    {
        FanIn { outstanding: tasks }
    }

    /// The number of tasks that have not ended yet.
    pub fn outstanding(&self) -> (n: usize)
        ensures
            n == self.left(),
    {
        self.outstanding
    }

    /// Whether every task has ended.
    pub fn is_complete(&self) -> (c: bool)
        ensures
            c == (self.left() == 0),
    {
        self.outstanding == 0
    }

    /// Takes the result of a task that has ended. The count goes down by one.
    /// A task that gave up halts the run; otherwise the phase is done once no
    /// task is left.
    pub fn settle(&mut self, result: Result<(), Fatal>) -> (progress: Progress)
        ensures
            final(self).left() == one_less(old(self).left()),
            progress == progress_of(result, final(self).left()),
    {
        if self.outstanding > 0 {
            self.outstanding = self.outstanding - 1;
        }
        match result {
            Err(fatal) => Progress::Halt(fatal),
            Ok(_) => {
                if self.outstanding == 0 {
                    Progress::Done
                } else {
                    Progress::Wait
                }
            },
        }
    }
}

/// The number of tasks still out when `results.len()` of `tasks` tasks have
/// ended.
pub open spec fn left_after(tasks: usize, results: Seq<Result<(), Fatal>>) -> usize
    decreases results.len(),
{
    if results.len() == 0 {
        tasks
    } else {
        one_less(left_after(tasks, results.drop_last()))
    }
}

/// A phase is done exactly when the last of its tasks has ended: while fewer
/// results than tasks are in, and none of them is a failure, the answer to
/// each is to wait, and the answer to the last is that the phase is done.
pub proof fn lemma_phase_waits_for_all(tasks: usize, results: Seq<Result<(), Fatal>>)
    requires
        0 < results.len() <= tasks,
        results.last() is Ok,
    ensures
        left_after(tasks, results) == tasks - results.len(),
        progress_of(results.last(), left_after(tasks, results)) == if results.len() == tasks {
            Progress::Done
        } else {
            Progress::Wait
        },
{
    lemma_left_after(tasks, results);
}

/// Each result takes one task off the count.
pub proof fn lemma_left_after(tasks: usize, results: Seq<Result<(), Fatal>>)
    requires
        results.len() <= tasks,
    ensures
        left_after(tasks, results) == tasks - results.len(),
    decreases results.len(),
{
    if results.len() > 0 {
        lemma_left_after(tasks, results.drop_last());
    }
}

/// A task that gave up halts the run, however many tasks are still out.
pub proof fn lemma_failure_halts(fatal: Fatal, left: usize)
    ensures
        progress_of(Err(fatal), left) == Progress::Halt(fatal),
{
}

} // verus!
