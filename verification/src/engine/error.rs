//! Errors an action reports back to its caller.

use vstd::prelude::*;

verus! {

/// Why a session action failed.
#[derive(Debug)]
pub enum EngineError {
    StaleRef(String),
    ActionTimeout { ref_id: String, timeout_ms: u64, last_visible: bool },
    WaitTimeout { text: String, timeout_ms: u64 },
    UnknownKey(String),
    UnknownPersona(String),
    UntrainedProfile(String),
    AmbiguousPersona,
    Training(String),
    Cdp(String),
    Serde(String),
    Recording(String),
    Network(String),
    UnknownCassette(String),
    Clock(String),
    UnknownPage(String),
    AssertionFailed { text: String, present: bool, snapshot_excerpt: String },
    YamlRunner(String),
    YamlStepFailed { step_number: usize, total_steps: usize, step_kind: String, message: String },
    Console(String),
}

} // verus!
