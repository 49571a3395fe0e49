//! The run of every step in order, stopping at the first failure.
//!
//! [`Pipeline`] is the state machine: a driver starts it, runs the operation
//! of the step it names, and reports each result. [`run_all`] is that driver
//! for operations that can be called in place.

use vstd::prelude::*;
use vstd::string::*;
use crate::ctx::{Context, ContextView, TaskReset};
use crate::status::{fresh_table, table_no_regress, StepState, StepStatus, STEP_COUNT};
use crate::task::{Task, TaskError};
use crate::worker::{begin_step, result_view, terminal_state};

verus! {

/// Where a run of the pipeline stands.
#[derive(Debug, PartialEq, Eq)]
pub enum PipelineState {
    /// Not started.
    Idle,
    /// The step with this index is running.
    Running(usize),
    /// The step with this index failed with this message; no later step ran.
    Aborted(usize, String),
    /// Every step succeeded.
    AllCompleted,
}

/// Mathematical value of a [`PipelineState`].
pub enum PipelineStateView {
    Idle,
    Running(int),
    Aborted(int, Seq<char>),
    AllCompleted,
}

impl View for PipelineState {
    type V = PipelineStateView;

    open spec fn view(&self) -> PipelineStateView {
        match self {
            PipelineState::Idle => PipelineStateView::Idle,
            PipelineState::Running(step) => PipelineStateView::Running(*step as int),
            PipelineState::Aborted(step, msg) => PipelineStateView::Aborted(*step as int, msg@),
            PipelineState::AllCompleted => PipelineStateView::AllCompleted,
        }
    }
}

/// What the log says when the step `step` of a run succeeded.
pub open spec fn step_success_text(step: int) -> Seq<char> {
    if step == 0 {
        "Step 1/4 completed: Game files copied"@
    } else if step == 1 {
        "Step 2/4 completed: Goldberg emulator applied"@
    } else if step == 2 {
        "Step 3/4 completed: Companion installed"@
    } else {
        "All steps completed successfully! ✓"@
    }
}

/// What the log says, before the error's own text, when the step `step` of a
/// run failed.
pub open spec fn step_failure_prefix(step: int) -> Seq<char> {
    if step == 0 {
        "Step 1 failed: "@
    } else if step == 1 {
        "Step 2 failed: "@
    } else if step == 2 {
        "Step 3 failed: "@
    } else {
        "Step 4 failed: "@
    }
}

/// The state of a run after its step `step` ended with `result`.
pub open spec fn state_after(step: int, result: Result<(), Seq<char>>) -> PipelineStateView {
    match result {
        Ok(_) => if step + 1 < STEP_COUNT {
            PipelineStateView::Running(step + 1)
        } else {
            PipelineStateView::AllCompleted
        },
        Err(msg) => PipelineStateView::Aborted(step, msg),
    }
}

impl ContextView {
    /// The value after step `step` of a run ended with `result`. On success
    /// the next step takes over the execution slot and is marked as running,
    /// or the slot is freed after the last one. On failure the slot is freed
    /// and no later slot is touched.
    pub open spec fn step_done(self, step: int, result: Result<(), Seq<char>>) -> ContextView {
        let recorded = self.with_status(step, terminal_state(result));
        match result {
            Ok(_) => {
                let logged = recorded.with_info(step_success_text(step));
                match Task::spec_for_step(step + 1) {
                    Some(next) => (ContextView { current_task: Some(next), ..logged }).with_status(
                        step + 1,
                        StepState::InProgress,
                    ),
                    None => logged.released(),
                }
            },
            Err(msg) => recorded.with_error(step_failure_prefix(step) + msg).released(),
        }
    }

    /// The value after a run was started and its first `n` steps succeeded.
    pub open spec fn completed_through(self, n: nat) -> ContextView
        decreases n,
    {
        if n == 0 {
            self.begun(Task::Copy)
        } else {
            self.completed_through((n - 1) as nat).step_done(n - 1, Ok(()))
        }
    }

    /// The value after a whole run that started here and ended in `end`.
    pub open spec fn run_to(self, end: PipelineStateView) -> ContextView {
        match end {
            PipelineStateView::AllCompleted => self.completed_through(STEP_COUNT as nat),
            PipelineStateView::Aborted(step, msg) => self.completed_through(step as nat).step_done(
                step,
                Err(msg),
            ),
            _ => self,
        }
    }
}

enum Stage {
    Idle,
    Running(Task, TaskReset),
    Aborted(Task, String),
    AllCompleted,
}

/// One run of the pipeline. While a step runs, the pipeline holds the guard
/// of the execution slot; it hands the guard back when the run ends.
pub struct Pipeline {
    stage: Stage,
}

impl View for Pipeline {
    type V = PipelineStateView;

    closed spec fn view(&self) -> PipelineStateView {
        match self.stage {
            Stage::Idle => PipelineStateView::Idle,
            Stage::Running(task, _) => PipelineStateView::Running(task.spec_step()),
            Stage::Aborted(task, msg) => PipelineStateView::Aborted(task.spec_step(), msg@),
            Stage::AllCompleted => PipelineStateView::AllCompleted,
        }
    }
}

/// Milliseconds for which a driver lets the file system settle before it
/// runs the step `step`: half a second before the last step, which reads what
/// the one before it wrote.
pub open spec fn spec_settle_millis(step: int) -> u64 {
    if step == 3 {
        500
    } else {
        0
    }
}

impl Pipeline {
    /// A run that has not started.
    pub fn new() -> (run: Self)
        ensures
            run@ == PipelineStateView::Idle,
    {
        Pipeline { stage: Stage::Idle }
    }

    /// Where the run stands.
    pub fn state(&self) -> (state: PipelineState)
        ensures
            state@ == self@,
            match state {
                PipelineState::Running(step) => step < STEP_COUNT,
                PipelineState::Aborted(step, _) => step < STEP_COUNT,
                _ => true,
            },
    {
        match &self.stage {
            Stage::Idle => PipelineState::Idle,
            Stage::Running(task, _) => PipelineState::Running(task.step()),
            Stage::Aborted(task, msg) => PipelineState::Aborted(task.step(), msg.clone()),
            Stage::AllCompleted => PipelineState::AllCompleted,
        }
    }

    /// The task whose operation the driver has to run now, if the run is
    /// under way.
    pub fn current(&self) -> (task: Option<Task>)
        ensures
            match self@ {
                PipelineStateView::Running(step) => task == Task::spec_for_step(step)
                    && task.is_some(),
                _ => task.is_none(),
            },
    {
        match &self.stage {
            Stage::Running(task, _) => Some(*task),
            _ => None,
        }
    }

    /// Milliseconds for which the driver waits before it runs the current
    /// step; zero where no step runs.
    pub fn settle_millis(&self) -> (millis: u64)
        ensures
            match self@ {
                PipelineStateView::Running(step) => millis == spec_settle_millis(step),
                _ => millis == 0,
            },
    {
        match &self.stage {
            Stage::Running(Task::Launcher, _) => 500,
            _ => 0,
        }
    }

    /// Starts a run: takes the execution slot and marks the first step as
    /// running. Fails as [`begin_step`] does for the first step, and then
    /// leaves the run as it was. A run that has ended may be started again.
    /// While a step runs, nothing changes and the running task is reported as
    /// busy.
    pub fn start(&mut self, ctx: &mut Context) -> (started: Result<(), TaskError>)
        ensures
            match old(self)@ {
                PipelineStateView::Running(step) => {
                    &&& final(ctx)@ == old(ctx)@
                    &&& final(self)@ == old(self)@
                    &&& Task::spec_for_step(step).is_some()
                    &&& started == Err::<(), TaskError>(
                        TaskError::AlreadyBusy(Task::spec_for_step(step).unwrap()),
                    )
                },
                _ => {
                    &&& final(ctx)@ == old(ctx)@.begun(Task::Copy)
                    &&& match started {
                        Ok(_) => old(ctx)@.begin_error(Task::Copy).is_none() && final(self)@
                            == PipelineStateView::Running(0),
                        Err(e) => old(ctx)@.begin_error(Task::Copy) == Some(e) && final(self)@
                            == old(self)@,
                    }
                },
            },
    {
        match &self.stage {
            Stage::Running(task, _) => Err(TaskError::AlreadyBusy(*task)),
            _ => {
                match begin_step(ctx, Task::Copy) {
                    Ok(guard) => {
                        self.stage = Stage::Running(Task::Copy, guard);
                        Ok(())
                    },
                    Err(e) => Err(e),
                }
            },
        }
    }

    /// Takes in the result of the running step. On success the run moves to
    /// the next step, or ends as completed after the last. On failure the run
    /// ends as aborted: the steps behind the failed one are not touched.
    /// Where no step runs, nothing changes.
    pub fn step_done(&mut self, ctx: &mut Context, result: Result<(), String>)
        ensures
            match old(self)@ {
                PipelineStateView::Running(step) => {
                    &&& final(self)@ == state_after(step, result_view(result))
                    &&& final(ctx)@ == old(ctx)@.step_done(step, result_view(result))
                    &&& old(ctx)@.steps[step].rank() <= 1 && (step + 1 < STEP_COUNT ==> old(
                        ctx,
                    )@.steps[step + 1] == StepState::NotStarted) ==> table_no_regress(
                        old(ctx)@.steps,
                        final(ctx)@.steps,
                    )
                },
                _ => final(self)@ == old(self)@ && final(ctx)@ == old(ctx)@,
            },
    {
        proof {
            ctx.lemma_table_len();
            let before = ctx@;
            match self@ {
                PipelineStateView::Running(step) => {
                    let after = before.step_done(step, result_view(result));
                    assert forall|i: int|
                        0 <= i < before.steps.len() && before.steps[step].rank() <= 1 && (step + 1
                            < STEP_COUNT ==> before.steps[step + 1]
                            == StepState::NotStarted) implies (#[trigger] before.steps[i]).no_regress(
                        after.steps[i],
                    ) by {}
                },
                _ => {},
            }
        }
        let mut stage = Stage::Idle;
        std::mem::swap(&mut stage, &mut self.stage);
        match stage {
            Stage::Running(task, guard) => {
                let step = task.step();
                match result {
                    Ok(_) => {
                        ctx.set_step_status(step, StepStatus::Completed);
                        ctx.log_info(step_success_line(step));
                        match Task::for_step(step + 1) {
                            Some(next) => {
                                let guard = ctx.switch_task(guard, next);
                                ctx.set_step_status(step + 1, StepStatus::InProgress);
                                self.stage = Stage::Running(next, guard);
                            },
                            None => {
                                ctx.release(guard);
                                self.stage = Stage::AllCompleted;
                            },
                        }
                    },
                    Err(msg) => {
                        let mut line = String::from_str(step_failure_line(step));
                        line.append(msg.as_str());
                        ctx.set_step_status(step, StepStatus::Failed(msg.clone()));
                        ctx.log_error(line.as_str());
                        ctx.release(guard);
                        self.stage = Stage::Aborted(task, msg);
                    },
                }
            },
            other => {
                self.stage = other;
            },
        }
    }
}

/// Some call of `op` for `task` may return a result whose view is `result`.
pub open spec fn op_gave<F: Fn(Task) -> Result<(), String>>(
    op: &F,
    task: Task,
    result: Result<(), Seq<char>>,
) -> bool {
    exists|r: Result<(), String>| result_view(r) == result && #[trigger] op.ensures((task,), r)
}

/// Runs every step in order on the caller's thread. `op` is the operation of
/// each step, called with the step's task. The run stops at the first error:
/// that step is recorded as failed and the steps behind it stay as they were.
///
/// Fails without running anything where the run cannot start. Otherwise the
/// state handed back is where the run ended: completed, or aborted at the step
/// whose operation returned the error.
pub fn run_all<F: Fn(Task) -> Result<(), String>>(ctx: &mut Context, op: &F) -> (end: Result<
    PipelineState,
    TaskError,
>)
    requires
        forall|task: Task| op.requires((task,)),
    ensures
        match end {
            Err(e) => old(ctx)@.begin_error(Task::Copy) == Some(e) && final(ctx)@ == old(
                ctx,
            )@.begun(Task::Copy),
            Ok(state) => {
                &&& old(ctx)@.begin_error(Task::Copy).is_none()
                &&& final(ctx)@ == old(ctx)@.run_to(state@)
                &&& !final(ctx)@.is_busy()
                &&& final(ctx)@.steps.len() == STEP_COUNT
                &&& old(ctx)@.steps == fresh_table() ==> table_no_regress(
                    old(ctx)@.steps,
                    final(ctx)@.steps,
                )
                &&& match state {
                    PipelineState::AllCompleted => {
                        &&& forall|task: Task| #[trigger] op_gave(op, task, Ok(()))
                        &&& forall|j: int|
                            0 <= j < STEP_COUNT ==> #[trigger] final(ctx)@.steps[j]
                                == StepState::Completed
                    },
                    PipelineState::Aborted(step, msg) => {
                        &&& step < STEP_COUNT
                        &&& op_gave(op, Task::spec_for_step(step as int).unwrap(), Err(msg@))
                        &&& forall|task: Task|
                            task.spec_step() < step ==> #[trigger] op_gave(op, task, Ok(()))
                        &&& forall|j: int|
                            0 <= j < step ==> #[trigger] final(ctx)@.steps[j]
                                == StepState::Completed
                        &&& final(ctx)@.steps[step as int] == StepState::Failed(msg@)
                        &&& forall|j: int|
                            step < j < STEP_COUNT ==> #[trigger] final(ctx)@.steps[j] == old(
                                ctx,
                            )@.steps[j]
                    },
                    _ => false,
                }
            },
        },
{
    proof {
        ctx.lemma_table_len();
    }
    let mut run = Pipeline::new();
    match run.start(ctx) {
        Err(e) => {
            return Err(e);
        },
        Ok(_) => {},
    }
    let mut step: usize = 0;
    while step < 4
        invariant
            step <= 4,
            old(ctx)@.steps.len() == STEP_COUNT,
            forall|task: Task| op.requires((task,)),
            old(ctx)@.begin_error(Task::Copy).is_none(),
            ctx@ == old(ctx)@.completed_through(step as nat),
            step < 4 ==> run@ == PipelineStateView::Running(step as int),
            step == 4 ==> run@ == PipelineStateView::AllCompleted,
            forall|task: Task| task.spec_step() < step ==> #[trigger] op_gave(op, task, Ok(())),
        decreases 4 - step,
    {
        let task = Task::for_step(step).unwrap();
        let result = op(task);
        let ghost given = result;
        assert(op_gave(op, task, result_view(given)));
        match result {
            Ok(_) => {
                run.step_done(ctx, Ok(()));
                assert forall|t: Task| t.spec_step() < step + 1 implies #[trigger] op_gave(
                    op,
                    t,
                    Ok(()),
                ) by {
                    if t.spec_step() == step {
                        assert(t == task);
                    }
                }
                step += 1;
            },
            Err(msg) => {
                proof {
                    lemma_fail_fast(old(ctx)@, step as int, msg@);
                    if old(ctx)@.steps == fresh_table() {
                        lemma_run_monotonic(old(ctx)@, step as nat, Err(msg@));
                    }
                }
                run.step_done(ctx, Err(msg));
                return Ok(run.state());
            },
        }
    }
    proof {
        lemma_all_completed(old(ctx)@);
        if old(ctx)@.steps == fresh_table() {
            lemma_run_monotonic(old(ctx)@, 3, Ok(()));
        }
    }
    Ok(run.state())
}

/// What the table and the slot look like after a run was started and its
/// first `n` steps succeeded: those steps are completed, the next one runs
/// and holds the slot, and the steps behind it are as they were.
pub proof fn lemma_completed_through(ctx: ContextView, n: nat)
    requires
        ctx.steps.len() == STEP_COUNT,
        ctx.begin_error(Task::Copy).is_none(),
        n <= STEP_COUNT,
    ensures
        ({
            let now = ctx.completed_through(n);
            &&& now.steps.len() == STEP_COUNT
            &&& forall|j: int| 0 <= j < n ==> #[trigger] now.steps[j] == StepState::Completed
            &&& n < STEP_COUNT ==> now.steps[n as int] == StepState::InProgress
            &&& forall|j: int| n < j < STEP_COUNT ==> #[trigger] now.steps[j] == ctx.steps[j]
            &&& now.current_task == Task::spec_for_step(n as int)
            &&& now.sourcedir == ctx.sourcedir
            &&& now.outdir == ctx.outdir
        }),
    decreases n,
{
    if n > 0 {
        lemma_completed_through(ctx, (n - 1) as nat);
    }
}

/// Fail-fast: after a run in which the operation of step `k` returned the
/// error `msg`, every step before `k` is completed, step `k` is failed with
/// that message, every step behind `k` is as it was before the run (not
/// started, in a table that was fresh), and the execution slot is free.
pub proof fn lemma_fail_fast(ctx: ContextView, k: int, msg: Seq<char>)
    requires
        ctx.steps.len() == STEP_COUNT,
        ctx.begin_error(Task::Copy).is_none(),
        0 <= k < STEP_COUNT,
    ensures
        ({
            let end = ctx.run_to(PipelineStateView::Aborted(k, msg));
            &&& end.steps.len() == STEP_COUNT
            &&& forall|j: int| 0 <= j < k ==> #[trigger] end.steps[j] == StepState::Completed
            &&& end.steps[k] == StepState::Failed(msg)
            &&& forall|j: int| k < j < STEP_COUNT ==> #[trigger] end.steps[j] == ctx.steps[j]
            &&& ctx.steps == fresh_table() ==> forall|j: int|
                k < j < STEP_COUNT ==> #[trigger] end.steps[j] == StepState::NotStarted
            &&& !end.is_busy()
        }),
{
    lemma_completed_through(ctx, k as nat);
}

/// After a run in which every operation succeeded, every step is completed
/// and the execution slot is free.
pub proof fn lemma_all_completed(ctx: ContextView)
    requires
        ctx.steps.len() == STEP_COUNT,
        ctx.begin_error(Task::Copy).is_none(),
    ensures
        ({
            let end = ctx.run_to(PipelineStateView::AllCompleted);
            &&& end.steps.len() == STEP_COUNT
            &&& forall|j: int| 0 <= j < STEP_COUNT ==> #[trigger] end.steps[j] == StepState::Completed
            &&& !end.is_busy()
        }),
{
    lemma_completed_through(ctx, STEP_COUNT as nat);
}

/// Monotonic status, for a run on a fresh table: the start moves the first
/// slot from not started to running; the end of step `n` moves its slot from
/// running to its outcome and, where a step follows, that one from not
/// started to running. No slot moves backward at either point.
pub proof fn lemma_run_monotonic(ctx: ContextView, n: nat, result: Result<(), Seq<char>>)
    requires
        ctx.steps == fresh_table(),
        ctx.begin_error(Task::Copy).is_none(),
        n < STEP_COUNT,
    ensures
        ({
            let started = ctx.completed_through(0);
            let before = ctx.completed_through(n);
            let after = before.step_done(n as int, result);
            &&& ctx.steps[0].advances_to(started.steps[0])
            &&& table_no_regress(ctx.steps, started.steps)
            &&& before.steps[n as int] == StepState::InProgress
            &&& after.steps[n as int] == terminal_state(result)
            &&& before.steps[n as int].advances_to(after.steps[n as int])
            &&& n + 1 < STEP_COUNT && result.is_ok() ==> before.steps[n as int + 1]
                == StepState::NotStarted && after.steps[n as int + 1] == StepState::InProgress
            &&& table_no_regress(before.steps, after.steps)
            &&& table_no_regress(ctx.steps, after.steps)
        }),
{
    lemma_completed_through(ctx, n);
    lemma_completed_through(ctx, 0);
    let before = ctx.completed_through(n);
    let after = before.step_done(n as int, result);
    assert forall|i: int| 0 <= i < before.steps.len() implies (#[trigger] before.steps[i]).no_regress(
        after.steps[i],
    ) by {}
    assert forall|i: int| 0 <= i < ctx.steps.len() implies (#[trigger] ctx.steps[i]).no_regress(
        after.steps[i],
    ) by {}
}

/// Moving forward composes: where no slot regresses from `a` to `b` nor from
/// `b` to `c`, none regresses from `a` to `c`.
pub proof fn lemma_no_regress_transitive(
    a: Seq<StepState>,
    b: Seq<StepState>,
    c: Seq<StepState>,
)
    requires
        table_no_regress(a, b),
        table_no_regress(b, c),
    ensures
        table_no_regress(a, c),
{
    assert forall|i: int| 0 <= i < a.len() implies (#[trigger] a[i]).no_regress(c[i]) by {
        assert(a[i].no_regress(b[i]));
        assert(b[i].no_regress(c[i]));
    }
}

fn step_success_line(step: usize) -> (text: &'static str)
    ensures
        text@ == step_success_text(step as int),
{
    if step == 0 {
        "Step 1/4 completed: Game files copied"
    } else if step == 1 {
        "Step 2/4 completed: Goldberg emulator applied"
    } else if step == 2 {
        "Step 3/4 completed: Companion installed"
    } else {
        "All steps completed successfully! ✓"
    }
}

fn step_failure_line(step: usize) -> (text: &'static str)
    ensures
        text@ == step_failure_prefix(step as int),
{
    if step == 0 {
        "Step 1 failed: "
    } else if step == 1 {
        "Step 2 failed: "
    } else if step == 2 {
        "Step 3 failed: "
    } else {
        "Step 4 failed: "
    }
}

} // verus!
