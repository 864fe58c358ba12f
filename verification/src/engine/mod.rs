//! The session layer: key table, snapshot rendering, YAML steps, traces,
//! network cassettes, persona selection and the page registry.

pub mod error;
pub mod keys;
pub mod yaml_runner;
pub mod snapshot;
pub mod trace_view;
pub mod session;
pub mod network;
pub mod console;
pub mod recording;
pub mod training;
