//! The agent harness: system prompt, skills, the tool surface and the
//! decisions of the tool-calling loop.

pub mod error;
pub mod prompt;
pub mod skills;
pub mod types;
pub mod tools;
pub mod harness;
pub mod vision;
