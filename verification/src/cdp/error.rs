//! Errors of the CDP client.

use vstd::prelude::*;

verus! {

/// Why a CDP operation failed.
#[derive(Debug)]
pub enum CdpError {
    Protocol { code: i64, message: String },
    Timeout { millis: u64 },
    Disconnected,
    LaunchFailed(String),
    AttachTimeout,
    NoBrowserFound { checked: String },
    WebSocket(String),
    Serde(String),
    Io(String),
    Other(String),
}

/// Reported to an event subscriber that fell behind: how many events the
/// bounded channel dropped on its behalf.
#[derive(Debug, Clone, Copy)]
pub struct LagInfo {
    pub skipped: u64,
}

} // verus!
