//! Supervisor for a long-running local backend service.
//!
//! The crate keeps one backend child process alive: it resolves where the
//! backend lives on disk, describes how to launch it, tracks the single live
//! process handle, decides when the watchdog must respawn a crashed backend,
//! and stores project records in an embedded database.

pub mod db;
pub mod launch;
pub mod resolve;
pub mod supervisor;
