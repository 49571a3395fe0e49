//! The protocol of one worker: take the slot, mark the step as running, run
//! the operation somewhere else, then record how it ended and free the slot.

use vstd::prelude::*;
use vstd::string::*;
use crate::ctx::{Context, ContextView, TaskReset};
use crate::status::{table_no_regress, StepState, StepStatus, STEP_COUNT};
use crate::task::{Task, TaskError};

verus! {

/// The view of what an operation returned: nothing, or the text of its error.
pub open spec fn result_view(result: Result<(), String>) -> Result<(), Seq<char>> {
    match result {
        Ok(_) => Ok(()),
        Err(msg) => Err(msg@),
    }
}

/// What the log says when the operation of `task` succeeded on its own.
pub open spec fn success_text(task: Task) -> Seq<char> {
    match task {
        Task::Copy => "Copy completed successfully"@,
        Task::Goldberg => "Goldberg emulator applied successfully"@,
        Task::Companion => "Companion installed successfully"@,
        Task::Launcher => "Launcher installed successfully"@,
    }
}

/// What the log says, before the error's own text, when the operation of
/// `task` failed on its own.
pub open spec fn failure_prefix(task: Task) -> Seq<char> {
    match task {
        Task::Copy => "Copy failed: "@,
        Task::Goldberg => "Goldberg installation failed: "@,
        Task::Companion => "Companion installation failed: "@,
        Task::Launcher => "Launcher installation failed: "@,
    }
}

/// The status that a finished operation leaves in its slot.
pub open spec fn terminal_state(result: Result<(), Seq<char>>) -> StepState {
    match result {
        Ok(_) => StepState::Completed,
        Err(msg) => StepState::Failed(msg),
    }
}

impl ContextView {
    /// Why a worker for `task` cannot begin, if it cannot: the slot is held,
    /// or the copy has no source to copy from.
    pub open spec fn begin_error(self, task: Task) -> Option<TaskError> {
        match self.current_task {
            Some(existing) => Some(TaskError::AlreadyBusy(existing)),
            None => if task == Task::Copy && self.sourcedir.is_none() {
                Some(TaskError::PrerequisiteMissing)
            } else {
                None
            },
        }
    }

    /// The value after a worker for `task` tried to begin. Where it could,
    /// the slot is taken and the step runs; a missing source is logged; a held
    /// slot changes nothing.
    pub open spec fn begun(self, task: Task) -> ContextView {
        match self.begin_error(task) {
            Some(TaskError::AlreadyBusy(_)) => self,
            Some(TaskError::PrerequisiteMissing) => self.with_error(
                TaskError::PrerequisiteMissing.spec_message(),
            ),
            None => self.started(task).with_status(task.spec_step(), StepState::InProgress),
        }
    }

    /// The value after the worker for `task` recorded `result`: the slot of
    /// its step holds the outcome, the log holds one line, the execution slot
    /// is free.
    pub open spec fn finished(self, task: Task, result: Result<(), Seq<char>>) -> ContextView {
        let recorded = self.with_status(task.spec_step(), terminal_state(result));
        let logged = match result {
            Ok(_) => recorded.with_info(success_text(task)),
            Err(msg) => recorded.with_error(failure_prefix(task) + msg),
        };
        logged.released()
    }
}

/// Begins the work on `task`: takes the execution slot and marks the step as
/// running, both before any worker exists, so that no observer sees the step
/// as not started once this has returned.
///
/// Fails with `AlreadyBusy` where the slot is held, and otherwise with
/// `PrerequisiteMissing` where a copy is asked for and no source directory is
/// chosen; that is logged and the slot stays free.
pub fn begin_step(ctx: &mut Context, task: Task) -> (guard: Result<TaskReset, TaskError>)
    ensures
        final(ctx)@ == old(ctx)@.begun(task),
        match guard {
            Ok(reset) => old(ctx)@.begin_error(task).is_none() && reset.task() == task,
            Err(e) => old(ctx)@.begin_error(task) == Some(e),
        },
        old(ctx)@.steps[task.spec_step()] == StepState::NotStarted ==> table_no_regress(
            old(ctx)@.steps,
            final(ctx)@.steps,
        ),
{
    proof {
        ctx.lemma_table_len();
        let before = ctx@;
        assert forall|i: int| 0 <= i < before.steps.len() && before.steps[task.spec_step()]
            == StepState::NotStarted implies (#[trigger] before.steps[i]).no_regress(
            before.begun(task).steps[i],
        ) by {}
    }
    match ctx.set_task(task) {
        Err(e) => Err(e),
        Ok(reset) => {
            if matches!(task, Task::Copy) && ctx.sourcedir().is_none() {
                let e = TaskError::PrerequisiteMissing;
                let text = e.message();
                ctx.log_error(text.as_str());
                ctx.release(reset);
                Err(e)
            } else {
                ctx.set_step_status(task.step(), StepStatus::InProgress);
                Ok(reset)
            }
        },
    }
}

/// Records how the operation behind `guard` ended, logs it, and frees the
/// execution slot. An error never travels further than this: it becomes the
/// status of the step. Returns whether the operation succeeded, for whoever
/// waits for the step.
pub fn finish_step(ctx: &mut Context, guard: TaskReset, result: Result<(), String>) -> (succeeded:
    bool)
    ensures
        final(ctx)@ == old(ctx)@.finished(guard.task(), result_view(result)),
        succeeded == result.is_ok(),
        old(ctx)@.steps[guard.task().spec_step()].rank() <= 1 ==> table_no_regress(
            old(ctx)@.steps,
            final(ctx)@.steps,
        ),
{
    proof {
        ctx.lemma_table_len();
        let before = ctx@;
        let after = before.finished(guard.task(), result_view(result));
        assert forall|i: int| 0 <= i < before.steps.len() && before.steps[guard.task().spec_step()].rank()
            <= 1 implies (#[trigger] before.steps[i]).no_regress(after.steps[i]) by {}
    }
    let task = guard.held_task();
    let succeeded = match result {
        Ok(_) => {
            ctx.set_step_status(task.step(), StepStatus::Completed);
            ctx.log_info(success_line(task));
            true
        },
        Err(msg) => {
            let mut line = String::from_str(failure_line(task));
            line.append(msg.as_str());
            ctx.set_step_status(task.step(), StepStatus::Failed(msg));
            ctx.log_error(line.as_str());
            false
        },
    };
    ctx.release(guard);
    succeeded
}

/// The whole life of one worker, in one thread: begins the step, runs `op`,
/// records its result. Where the step began, the result of `op` is handed
/// back.
pub fn run_step<F: FnOnce() -> Result<(), String>>(ctx: &mut Context, task: Task, op: F) -> (done:
    Result<Result<(), String>, TaskError>)
    requires
        op.requires(()),
    ensures
        match done {
            Err(e) => old(ctx)@.begin_error(task) == Some(e) && final(ctx)@ == old(ctx)@.begun(
                task,
            ),
            Ok(result) => old(ctx)@.begin_error(task).is_none() && op.ensures((), result)
                && final(ctx)@ == old(ctx)@.begun(task).finished(task, result_view(result)),
        },
{
    match begin_step(ctx, task) {
        Err(e) => Err(e),
        Ok(guard) => {
            let result = op();
            let report = match &result {
                Ok(_) => Ok(()),
                Err(msg) => Err(msg.clone()),
            };
            finish_step(ctx, guard, report);
            Ok(result)
        },
    }
}

/// Monotonic status, for one worker on a step that was not started: the
/// slot reads not started, then running once the worker has begun, then the
/// outcome once it has finished, and each write moves it forward.
pub proof fn lemma_worker_monotonic(ctx: ContextView, task: Task, result: Result<(), Seq<char>>)
    requires
        ctx.steps.len() == STEP_COUNT,
        ctx.steps[task.spec_step()] == StepState::NotStarted,
        ctx.begin_error(task).is_none(),
    ensures
        ({
            let step = task.spec_step();
            let running = ctx.begun(task);
            let done = running.finished(task, result);
            &&& running.steps[step] == StepState::InProgress
            &&& done.steps[step] == terminal_state(result)
            &&& ctx.steps[step].advances_to(running.steps[step])
            &&& running.steps[step].advances_to(done.steps[step])
            &&& table_no_regress(ctx.steps, running.steps)
            &&& table_no_regress(running.steps, done.steps)
            &&& running.is_busy()
            &&& !done.is_busy()
        }),
{
    let running = ctx.begun(task);
    let done = running.finished(task, result);
    assert forall|i: int| 0 <= i < ctx.steps.len() implies (#[trigger] ctx.steps[i]).no_regress(
        running.steps[i],
    ) by {}
    assert forall|i: int| 0 <= i < running.steps.len() implies (
    #[trigger] running.steps[i]).no_regress(done.steps[i]) by {}
}

fn success_line(task: Task) -> (text: &'static str)
    ensures
        text@ == success_text(task),
{
    match task {
        Task::Copy => "Copy completed successfully",
        Task::Goldberg => "Goldberg emulator applied successfully",
        Task::Companion => "Companion installed successfully",
        Task::Launcher => "Launcher installed successfully",
    }
}

fn failure_line(task: Task) -> (text: &'static str)
    ensures
        text@ == failure_prefix(task),
{
    match task {
        Task::Copy => "Copy failed: ",
        Task::Goldberg => "Goldberg installation failed: ",
        Task::Companion => "Companion installation failed: ",
        Task::Launcher => "Launcher installation failed: ",
    }
}

} // verus!
