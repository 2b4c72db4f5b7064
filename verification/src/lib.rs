//! A host-maintenance orchestrator's engine: it plans a fixed sequence of
//! package-management steps, classifies each spawned command's outcome,
//! formats the append-only transcript log, and models the progress monitor
//! that animates while a command runs.
//!
//! Spawning processes, file writes and terminal colors are operating-system
//! work left to the surrounding program; every decision about *what* to spawn,
//! *how* to classify it and *what* to write is made here, under contract.

pub mod clock;
pub mod executor;
pub mod hostinfo;
pub mod monitor;
pub mod orchestrator;
pub mod probe;
pub mod status;
pub mod step;
pub mod transcript;
