//! The `Fetch` domain: while enabled, every request pauses until it is
//! fulfilled or failed explicitly.

use vstd::prelude::*;
use crate::cdp::protocol::{CdpEvent, Command, EmptyParams, EmptyResponse};

verus! {

/// `Fetch.enable`.
pub struct Enable;

impl Command for Enable {
    type Params = EmptyParams;
    type Response = EmptyResponse;

    const METHOD: &'static str = "Fetch.enable";
}

/// `Fetch.disable`.
pub struct Disable;

impl Command for Disable {
    type Params = EmptyParams;
    type Response = EmptyResponse;

    const METHOD: &'static str = "Fetch.disable";
}

/// A request paused for interception.
pub struct RequestPaused {
    pub request_id: String,
    pub request: PausedRequest,
}

impl CdpEvent for RequestPaused {
    const METHOD: &'static str = "Fetch.requestPaused";
}

/// The paused request's URL and method.
pub struct PausedRequest {
    pub url: String,
    pub method: String,
}

/// `Fetch.fulfillRequest`.
pub struct FulfillRequest;

impl Command for FulfillRequest {
    type Params = FulfillRequestParams;
    type Response = EmptyResponse;

    const METHOD: &'static str = "Fetch.fulfillRequest";
}

/// The response a paused request is answered with; empty headers and an
/// absent body are left out of the message.
pub struct FulfillRequestParams {
    pub request_id: String,
    pub response_code: i64,
    pub response_headers: Vec<HeaderEntry>,
    /// The base64-encoded body.
    pub body: Option<String>,
}

/// One response header.
pub struct HeaderEntry {
    pub name: String,
    pub value: String,
}

/// `Fetch.failRequest`.
pub struct FailRequest;

impl Command for FailRequest {
    type Params = FailRequestParams;
    type Response = EmptyResponse;

    const METHOD: &'static str = "Fetch.failRequest";
}

/// The paused request to fail, and the network error it fails with.
pub struct FailRequestParams {
    pub request_id: String,
    pub error_reason: String,
}

} // verus!
