//! A verified model of an SSH session service: the registry of live
//! sessions, the per-session command channels, the connect state machine
//! and the decisions of the per-session worker.
//!
//! The library performs no I/O. A shell around it dials, authenticates and
//! reads from the network; it hands every outcome to the functions here and
//! carries out the actions they return.

pub mod laws;
pub mod model;
pub mod registry;
pub mod service;
pub mod supervisor;
pub mod text;
pub mod types;
pub mod worker;
