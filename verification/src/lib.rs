//! A minimal update-and-restart supervisor.
//!
//! The library captures the decision logic of a desktop application shell
//! that launches one bundled sidecar process at startup and runs a single
//! background task that checks for a new application version, downloads it
//! in chunks, installs it and restarts the host process.
//!
//! All I/O (process spawning, network transfers, installation, restart) is
//! performed by the embedding program; the library decides, step by step,
//! what happens next, and its contracts pin those decisions down.

pub mod progress;
pub mod session;
pub mod supervisor;
pub mod version;
