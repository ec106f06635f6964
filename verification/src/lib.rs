//! Verified core of an interactive-notebook session launcher for a
//! scheduler-managed cluster.
//!
//! The library covers everything the launcher decides or computes:
//! scanning the scheduler's diagnostic output for the granted node and the
//! notebook credential (`scan`), layering configuration sources
//! (`config`), and building the scheduler and tunnel command lines and the
//! final access URL (`command`). Process spawning and stream I/O live
//! outside the library and hand it plain values.

#![allow(unused_imports)]

pub mod command;
pub mod config;
pub mod scan;
pub mod text;
