//! Progress events and task outcomes.

use vstd::prelude::*;

verus! {

/// One event per model turn or tool call.
pub enum AgentEvent {
    Step { n: u32, max: u32 },
    ToolCall { name: String, args_summary: String },
    ToolResult { name: String, ok: bool, summary: String },
    Vision { chars: usize },
    Done { passed: bool, summary: String },
}

/// How a task run ended.
pub struct TaskOutcome {
    pub passed: bool,
    pub summary: String,
    pub steps_used: u32,
}

} // verus!
