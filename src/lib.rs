//! Applies an acoustic-management level to a configured set of disks.
//!
//! The library decides; the program around it acts. It holds the run's
//! configuration, the translation of a loudness level into the disk tool's
//! arguments, the order in which capabilities are raised, and the state
//! machine that walks device patterns and dispatches one tool call per
//! device, stopping at the first fatal error.
pub mod config;
pub mod error;
pub mod laws;
pub mod run;
