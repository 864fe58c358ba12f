//! Errors that end an agent run.

use vstd::prelude::*;

verus! {

/// Why a task run ended without an outcome.
#[derive(Debug)]
pub enum AgentError {
    Llm(String),
    NoSession,
    MaxStepsExceeded(u32),
    TaskTimeout,
    NoProgress,
    UnknownTool(String),
    NoVisionRole,
    UnknownSkill(String),
    Io(String),
}

} // verus!
