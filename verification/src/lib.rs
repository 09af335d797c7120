//! Control-plane logic of a log-archive orchestrator: desired state of the
//! recorder workers, lifecycle transitions, reconcile decisions with bounded
//! retries, recorder command construction and the control API contract.

pub mod text;
pub mod name_map;
pub mod model;
pub mod worker;
pub mod error;
pub mod control_api;
pub mod orchestrator;
pub mod laws;
pub mod format;
pub mod control;
pub mod config;
pub mod command;
