//! The kinds of exclusive operation, and the errors of starting one.

use vstd::prelude::*;
use vstd::string::*;

verus! {

/// Kind of exclusive operation that occupies the single execution slot. Each
/// kind is also one step of the pipeline.
#[derive(Debug, Clone, Copy, PartialEq, Eq, Structural)]
pub enum Task {
    Copy,
    Goldberg,
    Companion,
    Launcher,
}

impl Task {
    /// Index of the pipeline step that the task runs.
    pub open spec fn spec_step(self) -> int {
        match self {
            Task::Copy => 0,
            Task::Goldberg => 1,
            Task::Companion => 2,
            Task::Launcher => 3,
        }
    }

    /// The task that runs the pipeline step `step`.
    pub open spec fn spec_for_step(step: int) -> Option<Task> {
        if step == 0 {
            Some(Task::Copy)
        } else if step == 1 {
            Some(Task::Goldberg)
        } else if step == 2 {
            Some(Task::Companion)
        } else if step == 3 {
            Some(Task::Launcher)
        } else {
            None
        }
    }

    /// The name of the task, as it appears in messages.
    pub open spec fn spec_name(self) -> Seq<char> {
        match self {
            Task::Copy => "Copy"@,
            Task::Goldberg => "Goldberg"@,
            Task::Companion => "Companion"@,
            Task::Launcher => "Launcher"@,
        }
    }

    /// Index of the pipeline step that the task runs.
    pub fn step(self) -> (step: usize)
        ensures
            step == self.spec_step(),
            step < 4,
    {
        match self {
            Task::Copy => 0,
            Task::Goldberg => 1,
            Task::Companion => 2,
            Task::Launcher => 3,
        }
    }

    /// The task that runs the pipeline step `step`, if there is such a step.
    pub fn for_step(step: usize) -> (task: Option<Task>)
        ensures
            task == Task::spec_for_step(step as int),
            task.is_some() <==> step < 4,
            task.is_some() ==> task.unwrap().spec_step() == step,
    {
        if step == 0 {
            Some(Task::Copy)
        } else if step == 1 {
            Some(Task::Goldberg)
        } else if step == 2 {
            Some(Task::Companion)
        } else if step == 3 {
            Some(Task::Launcher)
        } else {
            None
        }
    }

    /// The name of the task, as it appears in messages.
    pub fn name(self) -> (name: &'static str)
        ensures
            name@ == self.spec_name(),
    {
        match self {
            Task::Copy => "Copy",
            Task::Goldberg => "Goldberg",
            Task::Companion => "Companion",
            Task::Launcher => "Launcher",
        }
    }
}

/// Why an operation was not started.
#[derive(Debug, Clone, Copy, PartialEq, Eq, Structural)]
pub enum TaskError {
    /// The execution slot is held by the given task.
    AlreadyBusy(Task),
    /// No source location is configured.
    PrerequisiteMissing,
}

impl TaskError {
    /// The text of the error.
    pub open spec fn spec_message(self) -> Seq<char> {
        match self {
            TaskError::AlreadyBusy(task) => "Task already running: "@ + task.spec_name(),
            TaskError::PrerequisiteMissing => "No source directory selected"@,
        }
    }

    /// The text of the error.
    pub fn message(&self) -> (text: String)
        ensures
            text@ == self.spec_message(),
    {
        match self {
            TaskError::AlreadyBusy(task) => {
                let mut text = String::from_str("Task already running: ");
                text.append(task.name());
                text
            },
            TaskError::PrerequisiteMissing => String::from_str("No source directory selected"),
        }
    }
}

} // verus!
