//! The `Target` domain: browser contexts, page targets and their sessions.

use vstd::prelude::*;
use crate::cdp::protocol::{CdpEvent, Command, EmptyResponse};

verus! {

/// `Target.createBrowserContext`.
pub struct CreateBrowserContext;

impl Command for CreateBrowserContext {
    type Params = CreateBrowserContextParams;
    type Response = CreateBrowserContextResponse;

    const METHOD: &'static str = "Target.createBrowserContext";
}

/// Whether the context goes away when its client detaches (left out when
/// absent).
pub struct CreateBrowserContextParams {
    pub dispose_on_detach: Option<bool>,
}

impl Default for CreateBrowserContextParams {
    fn default() -> (r: Self)
        ensures
            r.dispose_on_detach is None,
    {
        CreateBrowserContextParams { dispose_on_detach: None }
    }
}

/// The new context.
pub struct CreateBrowserContextResponse {
    pub browser_context_id: String,
}

/// `Target.disposeBrowserContext`.
pub struct DisposeBrowserContext;

impl Command for DisposeBrowserContext {
    type Params = DisposeBrowserContextParams;
    type Response = EmptyResponse;

    const METHOD: &'static str = "Target.disposeBrowserContext";
}

/// The context to dispose.
pub struct DisposeBrowserContextParams {
    pub browser_context_id: String,
}

/// `Target.createTarget`.
pub struct CreateTarget;

impl Command for CreateTarget {
    type Params = CreateTargetParams;
    type Response = CreateTargetResponse;

    const METHOD: &'static str = "Target.createTarget";
}

/// The new page's URL and, when given, its browser context.
pub struct CreateTargetParams {
    pub url: String,
    pub browser_context_id: Option<String>,
}

/// The new target.
pub struct CreateTargetResponse {
    pub target_id: String,
}

/// `Target.attachToTarget`.
pub struct AttachToTarget;

impl Command for AttachToTarget {
    type Params = AttachToTargetParams;
    type Response = AttachToTargetResponse;

    const METHOD: &'static str = "Target.attachToTarget";
}

/// The target to attach to, in flat session mode or not.
pub struct AttachToTargetParams {
    pub target_id: String,
    pub flatten: bool,
}

/// The session that now routes the target's messages.
pub struct AttachToTargetResponse {
    pub session_id: String,
}

/// `Target.closeTarget`.
pub struct CloseTarget;

impl Command for CloseTarget {
    type Params = CloseTargetParams;
    type Response = CloseTargetResponse;

    const METHOD: &'static str = "Target.closeTarget";
}

/// The target to close.
pub struct CloseTargetParams {
    pub target_id: String,
}

/// Whether it closed.
pub struct CloseTargetResponse {
    pub success: bool,
}

/// `Target.getTargetInfo`.
pub struct GetTargetInfo;

impl Command for GetTargetInfo {
    type Params = GetTargetInfoParams;
    type Response = GetTargetInfoResponse;

    const METHOD: &'static str = "Target.getTargetInfo";
}

/// The target asked about.
pub struct GetTargetInfoParams {
    pub target_id: String,
}

/// What is known of it.
pub struct GetTargetInfoResponse {
    pub target_info: TargetInfo,
}

/// A target's id, type, title, URL and browser context.
pub struct TargetInfo {
    pub target_id: String,
    pub target_type: String,
    pub title: String,
    pub url: String,
    pub browser_context_id: Option<String>,
}

/// `Target.setDiscoverTargets`: browser-wide, observe-only discovery of new
/// targets; attaching stays this client's own decision.
pub struct SetDiscoverTargets;

impl Command for SetDiscoverTargets {
    type Params = SetDiscoverTargetsParams;
    type Response = EmptyResponse;

    const METHOD: &'static str = "Target.setDiscoverTargets";
}

/// Whether discovery is on.
pub struct SetDiscoverTargetsParams {
    pub discover: bool,
}

/// A target was created.
pub struct TargetCreated {
    pub target_info: TargetInfo,
}

impl CdpEvent for TargetCreated {
    const METHOD: &'static str = "Target.targetCreated";
}

/// A target went away.
pub struct TargetDestroyed {
    pub target_id: String,
}

impl CdpEvent for TargetDestroyed {
    const METHOD: &'static str = "Target.targetDestroyed";
}

} // verus!
