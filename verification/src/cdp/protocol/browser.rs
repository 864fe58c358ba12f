//! The `Browser` domain.

use vstd::prelude::*;
use crate::cdp::protocol::{Command, EmptyParams};

verus! {

/// `Browser.getVersion`.
pub struct GetVersion;

impl Command for GetVersion {
    type Params = EmptyParams;
    type Response = GetVersionResponse;

    const METHOD: &'static str = "Browser.getVersion";
}

/// What `Browser.getVersion` reports.
pub struct GetVersionResponse {
    pub protocol_version: String,
    pub product: String,
    pub revision: String,
    pub user_agent: String,
    pub js_version: String,
}

/// `Browser.getWindowForTarget`: the on-screen bounds of the native window
/// hosting a target, used to tell a browser process's windows apart.
pub struct GetWindowForTarget;

impl Command for GetWindowForTarget {
    type Params = GetWindowForTargetParams;
    type Response = GetWindowForTargetResponse;

    const METHOD: &'static str = "Browser.getWindowForTarget";
}

/// The target whose window is asked for.
pub struct GetWindowForTargetParams {
    pub target_id: String,
}

/// The window and its bounds.
pub struct GetWindowForTargetResponse {
    pub window_id: i64,
    pub bounds: Bounds,
}

/// A window's bounds; each part may be absent.
pub struct Bounds {
    pub left: Option<i64>,
    pub top: Option<i64>,
    pub width: Option<i64>,
    pub height: Option<i64>,
    pub window_state: Option<String>,
}

} // verus!
