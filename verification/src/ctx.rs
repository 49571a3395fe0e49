//! The state shared by every worker: locations, the execution slot, the step
//! table and the queue of updates.

use vstd::prelude::*;
use vstd::string::*;
use crate::config::Config;
use crate::event::{AppUpdate, EventQueue, UpdateView};
use crate::status::{StepState, StepStatus, StepTable, STEP_COUNT};
use crate::task::{Task, TaskError};
use crate::text::text_view;

verus! {

/// A source directory and what measuring it gave: its size in bytes, or
/// `None` where it could not be measured.
pub struct SourceProbe {
    pub path: String,
    pub size: Option<u64>,
}

/// A destination directory and what asking for free space gave, for the
/// directory itself and for its parent: bytes, or `None` where the question
/// failed or there is no parent.
pub struct OutdirProbe {
    pub path: String,
    pub available: Option<u64>,
    pub parent_available: Option<u64>,
}

/// Token of an occupied execution slot, made by a successful
/// [`Context::set_task`]. Handing it to [`Context::release`] frees the slot.
#[derive(Debug)]
pub struct TaskReset {
    task: Task,
}

impl TaskReset {
    /// The token for a slot taken by `task`.
    pub fn new(task: Task) -> (guard: Self)
        ensures
            guard.task() == task,
    {
        TaskReset { task }
    }

    /// The task for which the slot was taken.
    pub closed spec fn task(&self) -> Task {
        self.task
    }

    /// The task for which the slot was taken.
    pub fn held_task(&self) -> (task: Task)
        ensures
            task == self.task(),
    {
        self.task
    }
}

/// Process-wide state of the orchestration.
pub struct Context {
    config: Config,
    tx: EventQueue,
    sourcedir: Option<String>,
    outdir: String,
    current_task: Option<Task>,
    step_status: StepTable,
}

/// Mathematical value of a [`Context`].
pub struct ContextView {
    pub config: Config,
    pub sourcedir: Option<Seq<char>>,
    pub outdir: Seq<char>,
    pub current_task: Option<Task>,
    pub steps: Seq<StepState>,
    pub updates: Seq<UpdateView>,
}

/// The line that the log shows for an informational message.
pub open spec fn info_line(text: Seq<char>) -> Seq<char> {
    "[INFO] "@ + text
}

/// The line that the log shows for an error message.
pub open spec fn error_line(text: Seq<char>) -> Seq<char> {
    "[ERROR] "@ + text
}

impl ContextView {
    /// The value after `update` was sent.
    pub open spec fn with_update(self, update: UpdateView) -> ContextView {
        ContextView { updates: self.updates.push(update), ..self }
    }

    /// The value after the slot of `step` was written and the observer told.
    /// A step outside the table changes no slot.
    pub open spec fn with_status(self, step: int, status: StepState) -> ContextView {
        ContextView {
            steps: if 0 <= step < self.steps.len() {
                self.steps.update(step, status)
            } else {
                self.steps
            },
            updates: self.updates.push(UpdateView::StepStatusChanged),
            ..self
        }
    }

    /// The value after an informational message was logged. An empty
    /// message is not logged.
    pub open spec fn with_info(self, text: Seq<char>) -> ContextView {
        if text.len() == 0 {
            self
        } else {
            self.with_update(UpdateView::Log(info_line(text)))
        }
    }

    /// The value after an error message was logged. An empty message is not
    /// logged.
    pub open spec fn with_error(self, text: Seq<char>) -> ContextView {
        if text.len() == 0 {
            self
        } else {
            self.with_update(UpdateView::Log(error_line(text)))
        }
    }

    /// Whether the execution slot is occupied.
    pub open spec fn is_busy(self) -> bool {
        self.current_task.is_some()
    }

    /// What an attempt to take the slot for `task` gives: the error, or
    /// `None` where the slot was free and is taken.
    pub open spec fn start_error(self, task: Task) -> Option<TaskError> {
        match self.current_task {
            Some(existing) => Some(TaskError::AlreadyBusy(existing)),
            None => None,
        }
    }

    /// The value after an attempt to take the slot for `task`.
    pub open spec fn started(self, task: Task) -> ContextView {
        match self.current_task {
            Some(_) => self,
            None => ContextView { current_task: Some(task), ..self },
        }
    }

    /// The value after the slot was freed.
    pub open spec fn released(self) -> ContextView {
        ContextView { current_task: None, ..self }
    }

    /// The value after a source directory was chosen.
    pub open spec fn with_source(self, path: Seq<char>, size: Option<u64>) -> ContextView {
        let told = match size {
            Some(n) => self.with_update(UpdateView::SourceSize(n)),
            None => self,
        };
        ContextView { sourcedir: Some(path), ..told }
    }

    /// The value after a destination directory was chosen: the observer
    /// learns the free space of the directory, or else of its parent.
    pub open spec fn with_outdir(
        self,
        path: Seq<char>,
        available: Option<u64>,
        parent_available: Option<u64>,
    ) -> ContextView {
        let told = match (available, parent_available) {
            (Some(n), _) => self.with_update(UpdateView::DestDriveAvailable(n)),
            (None, Some(n)) => self.with_update(UpdateView::DestDriveAvailable(n)),
            (None, None) => self,
        };
        ContextView { outdir: path, ..told }
    }
}

impl View for Context {
    type V = ContextView;

    closed spec fn view(&self) -> ContextView {
        ContextView {
            config: self.config,
            sourcedir: text_view(self.sourcedir),
            outdir: self.outdir@,
            current_task: self.current_task,
            steps: self.step_status@,
            updates: self.tx@,
        }
    }
}

impl Context {

    /// The state at process start: no task, no step started, and the
    /// locations that were found, each announced as by its setter.
    pub fn new(config: Config, source: Option<SourceProbe>, outdir: OutdirProbe) -> (ctx: Self)
        ensures
            ctx@ == ({
                let empty = ContextView {
                    config,
                    sourcedir: None,
                    outdir: Seq::<char>::empty(),
                    current_task: None,
                    steps: crate::status::fresh_table(),
                    updates: Seq::<UpdateView>::empty(),
                };
                let sourced = match source {
                    Some(probe) => empty.with_source(probe.path@, probe.size),
                    None => empty,
                };
                sourced.with_outdir(outdir.path@, outdir.available, outdir.parent_available)
            }),
    {
        let mut ctx = Context {
            config,
            tx: EventQueue::new(),
            sourcedir: None,
            outdir: String::new(),
            current_task: None,
            step_status: StepTable::new(),
        };
        if let Some(probe) = source {
            ctx.set_sourcedir(probe);
        }
        ctx.set_outdir(outdir);
        ctx
    }

    /// Every context has one status slot per step.
    pub proof fn lemma_table_len(&self)
        ensures
            self@.steps.len() == STEP_COUNT,
    {
        self.step_status.lemma_len();
    }

    /// The configuration.
    pub fn config(&self) -> (config: &Config)
        ensures
            *config == self@.config,
    {
        &self.config
    }

    /// The source directory, if one is chosen.
    pub fn sourcedir(&self) -> (path: Option<String>)
        ensures
            text_view(path) == self@.sourcedir,
    {
        match &self.sourcedir {
            Some(path) => Some(path.clone()),
            None => None,
        }
    }

    /// The destination directory.
    pub fn outdir(&self) -> (path: String)
        ensures
            path@ == self@.outdir,
    {
        self.outdir.clone()
    }

    /// Chooses the source directory, and tells the observer its size where it
    /// was measured.
    pub fn set_sourcedir(&mut self, probe: SourceProbe)
        ensures
            final(self)@ == old(self)@.with_source(probe.path@, probe.size),
    {
        if let Some(size) = probe.size {
            self.tx.send(AppUpdate::SourceSize(size));
        }
        self.sourcedir = Some(probe.path);
    }

    /// Chooses the destination directory, and tells the observer the free
    /// space of its drive: that of the directory where known, else that of
    /// its parent where known.
    pub fn set_outdir(&mut self, probe: OutdirProbe)
        ensures
            final(self)@ == old(self)@.with_outdir(
                probe.path@,
                probe.available,
                probe.parent_available,
            ),
    {
        if let Some(available) = probe.available {
            self.tx.send(AppUpdate::DestDriveAvailable(available));
        } else if let Some(available) = probe.parent_available {
            self.tx.send(AppUpdate::DestDriveAvailable(available));
        }
        self.outdir = probe.path;
    }

    /// Overwrites the slot of `step` and tells the observer. A step outside
    /// the table changes no slot; the observer is told all the same.
    ///
    /// The table accepts any status: that a slot only moves forward within
    /// one run is kept by the worker and the pipeline.
    pub fn set_step_status(&mut self, step: usize, status: StepStatus)
        ensures
            final(self)@ == old(self)@.with_status(step as int, status@),
    {
        proof {
            self.step_status.lemma_len();
        }
        self.step_status.set(step, status);
        self.tx.send(AppUpdate::StepStatusChanged);
    }

    /// A copy of every slot of the step table, in pipeline order.
    pub fn status_snapshot(&self) -> (all: Vec<StepStatus>)
        ensures
            all@.len() == STEP_COUNT,
            self@.steps.len() == STEP_COUNT,
            forall|i: int| 0 <= i < STEP_COUNT ==> (#[trigger] all@[i])@ == self@.steps[i],
    {
        proof {
            self.step_status.lemma_len();
        }
        self.step_status.get_all()
    }

    /// Sends one update to the observer. Never blocks and never fails.
    pub fn send(&mut self, update: AppUpdate)
        ensures
            final(self)@ == old(self)@.with_update(update@),
    {
        self.tx.send(update);
    }

    /// Whether no step has been started.
    pub fn all_not_started(&self) -> (fresh: bool)
        ensures
            fresh == (self@.steps == crate::status::fresh_table()),
    {
        self.step_status.all_not_started()
    }

    /// Takes the oldest update that waits for the observer, if any. Never
    /// blocks.
    pub fn try_recv(&mut self) -> (update: Option<AppUpdate>)
        ensures
            old(self)@.updates.len() == 0 ==> update.is_none() && final(self)@ == old(self)@,
            old(self)@.updates.len() > 0 ==> update.is_some() && update.unwrap()@ == old(
                self,
            )@.updates[0] && final(self)@ == (ContextView {
                updates: old(self)@.updates.subrange(1, old(self)@.updates.len() as int),
                ..old(self)@
            }),
    {
        self.tx.try_recv()
    }

    /// Takes every update that waits for the observer, oldest first.
    pub fn drain_updates(&mut self) -> (updates: Vec<AppUpdate>)
        ensures
            final(self)@ == (ContextView { updates: Seq::<UpdateView>::empty(), ..old(self)@ }),
            updates@.len() == old(self)@.updates.len(),
            forall|i: int|
                0 <= i < updates@.len() ==> (#[trigger] updates@[i])@ == old(self)@.updates[i],
    {
        self.tx.drain()
    }

    /// Takes the execution slot for `task`, or fails at once where it is
    /// held: nothing waits and nothing is queued.
    pub fn set_task(&mut self, task: Task) -> (guard: Result<TaskReset, TaskError>)
        ensures
            final(self)@ == old(self)@.started(task),
            match guard {
                Ok(reset) => old(self)@.start_error(task).is_none() && reset.task() == task,
                Err(e) => old(self)@.start_error(task) == Some(e),
            },
    {
        match self.current_task {
            Some(existing) => Err(TaskError::AlreadyBusy(existing)),
            None => {
                self.current_task = Some(task);
                Ok(TaskReset::new(task))
            },
        }
    }

    /// Frees the execution slot. This is what the end of a guard's scope
    /// does, on every way out of it.
    pub fn release(&mut self, guard: TaskReset)
        ensures
            final(self)@ == old(self)@.released(),
    {
        self.current_task = None;
    }

    /// Hands the held slot over to `task` without freeing it in between.
    pub fn switch_task(&mut self, guard: TaskReset, task: Task) -> (next: TaskReset)
        ensures
            final(self)@ == (ContextView { current_task: Some(task), ..old(self)@ }),
            next.task() == task,
    {
        self.current_task = Some(task);
        TaskReset::new(task)
    }

    /// Whether the execution slot is held.
    pub fn is_busy(&self) -> (busy: bool)
        ensures
            busy == self@.is_busy(),
    {
        self.current_task.is_some()
    }

    /// Sends one informational line to the log, unless the message is
    /// empty.
    pub fn log_info(&mut self, text: &str)
        ensures
            final(self)@ == old(self)@.with_info(text@),
    {
        if text.is_empty() {
            return ;
        }
        let mut line = String::from_str("[INFO] ");
        line.append(text);
        self.tx.send(AppUpdate::Log(line));
    }

    /// Sends one error line to the log, unless the message is empty.
    pub fn log_error(&mut self, text: &str)
        ensures
            final(self)@ == old(self)@.with_error(text@),
    {
        if text.is_empty() {
            return ;
        }
        let mut line = String::from_str("[ERROR] ");
        line.append(text);
        self.tx.send(AppUpdate::Log(line));
    }
}

/// How many of the attempts to take the slot for each of `tasks` in turn,
/// with no release between them, succeed from the state `ctx`.
pub open spec fn start_successes(ctx: ContextView, tasks: Seq<Task>) -> nat
    decreases tasks.len(),
{
    if tasks.len() == 0 {
        0
    } else {
        let won: nat = if ctx.start_error(tasks[0]).is_none() {
            1
        } else {
            0
        };
        won + start_successes(ctx.started(tasks[0]), tasks.drop_first())
    }
}

/// Mutual exclusion: while the slot is held every attempt fails; of any
/// attempts in a row on a free slot exactly the first succeeds, and the slot
/// then records its task.
pub proof fn lemma_start_exclusive(ctx: ContextView, tasks: Seq<Task>)
    ensures
        start_successes(ctx, tasks) <= 1,
        ctx.is_busy() ==> start_successes(ctx, tasks) == 0,
        !ctx.is_busy() && tasks.len() > 0 ==> start_successes(ctx, tasks) == 1
            && ctx.started(tasks[0]).current_task == Some(tasks[0]),
        forall|task: Task| ctx.is_busy() ==> #[trigger] ctx.start_error(task) == Some(
            TaskError::AlreadyBusy(ctx.current_task.unwrap()),
        ),
    decreases tasks.len(),
{
    if tasks.len() > 0 {
        lemma_start_exclusive(ctx.started(tasks[0]), tasks.drop_first());
    }
}

/// Unconditional release: once the guard is handed back the slot is free,
/// whatever state it was in, and the next attempt to take it succeeds.
pub proof fn lemma_release_frees(ctx: ContextView, task: Task)
    ensures
        !ctx.released().is_busy(),
        ctx.released().start_error(task).is_none(),
        ctx.released().started(task).current_task == Some(task),
{
}

} // verus!
