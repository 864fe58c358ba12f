//! The `Network` domain, observed passively: a request's start, its
//! response and its end, correlated by request id.

use vstd::prelude::*;
use crate::cdp::protocol::{CdpEvent, Command, EmptyParams, EmptyResponse};

verus! {

/// `Network.enable`.
pub struct Enable;

impl Command for Enable {
    type Params = EmptyParams;
    type Response = EmptyResponse;

    const METHOD: &'static str = "Network.enable";
}

/// A request is about to be sent.
pub struct RequestWillBeSent {
    pub request_id: String,
    pub request: RequestInfo,
}

impl CdpEvent for RequestWillBeSent {
    const METHOD: &'static str = "Network.requestWillBeSent";
}

/// A request's URL and method.
pub struct RequestInfo {
    pub url: String,
    pub method: String,
}

/// A response arrived.
pub struct ResponseReceived {
    pub request_id: String,
    pub response: ResponseInfo,
}

impl CdpEvent for ResponseReceived {
    const METHOD: &'static str = "Network.responseReceived";
}

/// A response's status and headers (absent headers read as none).
pub struct ResponseInfo {
    pub status: i64,
    pub headers: Vec<(String, String)>,
}

/// A request finished loading; its body can now be fetched.
pub struct LoadingFinished {
    pub request_id: String,
}

impl CdpEvent for LoadingFinished {
    const METHOD: &'static str = "Network.loadingFinished";
}

/// `Network.getResponseBody`.
pub struct GetResponseBody;

impl Command for GetResponseBody {
    type Params = GetResponseBodyParams;
    type Response = GetResponseBodyResponse;

    const METHOD: &'static str = "Network.getResponseBody";
}

/// The request whose body is asked for.
pub struct GetResponseBodyParams {
    pub request_id: String,
}

/// The body, and whether it came base64-encoded.
pub struct GetResponseBodyResponse {
    pub body: String,
    pub base64_encoded: bool,
}

} // verus!
