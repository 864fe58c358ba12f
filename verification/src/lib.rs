//! Verified core of the `aib` browser-testing engine: the pure decisions,
//! parsers and renderers that the browser driver, the agent harness and the
//! CDP client are built from.

pub mod text;

pub mod engine;
pub mod agent;
pub mod paths;
pub mod cdp;
pub mod json;
pub mod codec;
