use aoe2_archiver::config::{AoE2, Config, Goldberg};
use aoe2_archiver::ctx::{Context, OutdirProbe, SourceProbe};
use aoe2_archiver::event::AppUpdate;
use aoe2_archiver::pipeline::{run_all, PipelineState};
use aoe2_archiver::status::StepStatus;
use aoe2_archiver::task::{Task, TaskError};
use aoe2_archiver::worker::{begin_step, finish_step};

fn config() -> Config {
    Config {
        goldberg: Goldberg { download_url: String::from("https://example.invalid/gbe.7z") },
        aoe2: AoE2 {
            steam_folder: String::from("steam"),
            gh_companion_user: String::from("cu"),
            gh_companion_repo: String::from("cr"),
            gh_launcher_user: String::from("lu"),
            gh_launcher_repo: String::from("lr"),
        },
    }
}

fn context() -> Context {
    let source = SourceProbe { path: String::from("/games/aoe2"), size: Some(1000) };
    let outdir =
        OutdirProbe { path: String::from("/out/AoE2"), available: Some(5000), parent_available: None };
    let mut ctx = Context::new(config(), Some(source), outdir);
    ctx.drain_updates();
    ctx
}

#[test]
fn second_acquire_fails_until_first_guard_is_released() {
    let mut ctx = context();
    let guard = ctx.set_task(Task::Copy).unwrap();
    assert!(ctx.is_busy());
    assert_eq!(ctx.set_task(Task::Goldberg).unwrap_err(), TaskError::AlreadyBusy(Task::Copy));
    ctx.release(guard);
    assert!(!ctx.is_busy());
    assert!(ctx.set_task(Task::Goldberg).is_ok());
}

#[test]
fn run_all_stops_at_the_failing_step() {
    let mut ctx = context();
    let op = |task: Task| {
        if task == Task::Goldberg {
            Err(String::from("disk full"))
        } else {
            Ok(())
        }
    };
    let end = run_all(&mut ctx, &op).unwrap();
    assert_eq!(end, PipelineState::Aborted(1, String::from("disk full")));
    assert_eq!(
        ctx.status_snapshot(),
        vec![
            StepStatus::Completed,
            StepStatus::Failed(String::from("disk full")),
            StepStatus::NotStarted,
            StepStatus::NotStarted,
        ]
    );
    assert!(!ctx.is_busy());
}

#[test]
fn single_step_is_seen_as_not_started_then_running_then_completed() {
    let mut ctx = context();
    let mut seen = vec![ctx.status_snapshot()[2].clone()];
    let guard = begin_step(&mut ctx, Task::Companion).unwrap();
    for update in ctx.drain_updates() {
        if update == AppUpdate::StepStatusChanged {
            seen.push(ctx.status_snapshot()[2].clone());
        }
    }
    assert!(finish_step(&mut ctx, guard, Ok(())));
    for update in ctx.drain_updates() {
        if update == AppUpdate::StepStatusChanged {
            seen.push(ctx.status_snapshot()[2].clone());
        }
    }
    assert_eq!(seen, vec![StepStatus::NotStarted, StepStatus::InProgress, StepStatus::Completed]);
}
