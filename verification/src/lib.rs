//! The decisions of five programs that reproduce defects of `sqlx-sqlite-toolkit` and
//! `tauri-plugin-sqlite`, verified.
//!
//! A program is a run that asks for one action at a time, takes up what came of it, and says
//! what to print; see [`program::Program`]. The database, the windows and the clock stay with
//! the caller.
//!
//! - [`dropped_transaction`]: a dropped interruptible transaction stays open.
//! - [`acquire_control`]: control experiment for the probe of the writer.
//! - [`clone_observation`]: observation is not shared across clones of a handle.
//! - [`reobserve`]: enabling observation again ends the streams of earlier subscribers.
//! - [`window_close`]: closing a window ends observation that the Rust side enabled.

pub mod acquire_control;
pub mod clone_observation;
pub mod dropped_transaction;
pub mod probe;
pub mod program;
pub mod reobserve;
pub mod sql;
pub mod text;
pub mod verdict;
pub mod window_close;
