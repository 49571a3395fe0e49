//! Core of a utility that archives a playable copy of a game.
//!
//! The heart of the library is the orchestration of long-running steps: a
//! single-flight task guard, a per-step status table, a queue of updates for
//! one observer, the worker protocol around one fallible operation, and the
//! fail-fast pipeline that runs every step in order. Around it stand the
//! rules of the steps themselves: which files of an archive are taken, how
//! a download is chosen among the assets of a release, how configuration
//! files are adapted.
//!
//! The types here are plain values. A driver shares one [`ctx::Context`]
//! between its threads behind a lock and calls these functions inside short
//! critical sections; the long-running operations themselves run outside.

pub mod status;
pub mod task;
pub mod busy;
pub mod config;
pub mod event;
pub mod ctx;
pub mod worker;
pub mod pipeline;
pub mod progress;
pub mod observer;
pub mod text;
pub mod archive;
pub mod inifile;
pub mod release;
pub mod goldberg;
pub mod aoe2;
pub mod steam;
pub mod launch;
