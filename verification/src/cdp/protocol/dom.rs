//! The `DOM` domain, used to find which `<iframe>` element owns a
//! cross-process frame and to turn it into a live object handle.

use vstd::prelude::*;
use crate::cdp::protocol::{Command, EmptyParams, EmptyResponse};
use crate::cdp::protocol::runtime::RemoteObject;

verus! {

/// `DOM.enable`.
pub struct Enable;

impl Command for Enable {
    type Params = EmptyParams;
    type Response = EmptyResponse;

    const METHOD: &'static str = "DOM.enable";
}

/// `DOM.getFrameOwner`.
pub struct GetFrameOwner;

impl Command for GetFrameOwner {
    type Params = GetFrameOwnerParams;
    type Response = GetFrameOwnerResponse;

    const METHOD: &'static str = "DOM.getFrameOwner";
}

/// The frame whose owner is asked for.
pub struct GetFrameOwnerParams {
    pub frame_id: String,
}

/// The owning element's backend node.
pub struct GetFrameOwnerResponse {
    pub backend_node_id: i64,
}

/// `DOM.resolveNode`.
pub struct ResolveNode;

impl Command for ResolveNode {
    type Params = ResolveNodeParams;
    type Response = ResolveNodeResponse;

    const METHOD: &'static str = "DOM.resolveNode";
}

/// The backend node to resolve.
pub struct ResolveNodeParams {
    pub backend_node_id: i64,
}

/// A handle to the node as a JavaScript object.
pub struct ResolveNodeResponse {
    pub object: RemoteObject,
}

} // verus!
