//! The commands a page issues, built from plain values, and what their
//! replies mean: named-key and character events, request fulfilment and
//! failure, target creation and attachment, and the outcome of an
//! evaluation or a screenshot.

use vstd::prelude::*;
use crate::cdp::error::CdpError;
use crate::cdp::protocol::fetch::{FailRequestParams, FulfillRequestParams, HeaderEntry};
use crate::cdp::protocol::input::DispatchKeyEventParams;
use crate::cdp::protocol::runtime::{EvaluateResponse, RemoteValue};
use crate::cdp::protocol::target::{AttachToTargetParams, CreateTargetParams};
use crate::codec::{base64_decode, base64_standard_decode};
use crate::text::{push_char, str_eq};

verus! {

/// The key-down and key-up events of a named key.
pub fn key_events(key: &str, code: &str, windows_virtual_key_code: i64) -> (r: Vec<DispatchKeyEventParams>)
    ensures
        r.len() == 2,
        forall|i: int| 0 <= i < 2 ==> {
            &&& (#[trigger] r@[i]).kind@ == if i == 0 { "keyDown"@ } else { "keyUp"@ }
            &&& r@[i].key matches Some(k) && k@ == key@
            &&& r@[i].code matches Some(c) && c@ == code@
            &&& r@[i].windows_virtual_key_code == Some(windows_virtual_key_code)
            &&& r@[i].text is None
        },
{
    let mut r: Vec<DispatchKeyEventParams> = Vec::new();
    r.push(DispatchKeyEventParams {
        kind: "keyDown".to_owned(),
        key: Some(key.to_owned()),
        code: Some(code.to_owned()),
        windows_virtual_key_code: Some(windows_virtual_key_code),
        text: None,
    });
    r.push(DispatchKeyEventParams {
        kind: "keyUp".to_owned(),
        key: Some(key.to_owned()),
        code: Some(code.to_owned()),
        windows_virtual_key_code: Some(windows_virtual_key_code),
        text: None,
    });
    r
}

/// The `char` event that types `ch`.
pub fn char_event(ch: char) -> (r: DispatchKeyEventParams)
    ensures
        r.kind@ == "char"@,
        r.key is None,
        r.code is None,
        r.windows_virtual_key_code is None,
        r.text matches Some(t) && t@ == seq![ch],
{
    let mut t = String::new();
    push_char(&mut t, ch);
    assert(t@ =~= seq![ch]);
    DispatchKeyEventParams { kind: "char".to_owned(), key: None, code: None, windows_virtual_key_code: None, text: Some(t) }
}

/// Answers a paused request with a recorded response: its status, its
/// headers as name/value entries in order, and its base64 body.
pub fn fulfill_params(request_id: &str, status: i64, headers: Vec<(String, String)>, body_base64: Option<String>) -> (r: FulfillRequestParams)
    ensures
        r.request_id@ == request_id@,
        r.response_code == status,
        r.response_headers.len() == headers.len(),
        forall|i: int| 0 <= i < headers.len() ==> (#[trigger] r.response_headers@[i]).name@ == headers@[i].0@
            && r.response_headers@[i].value@ == headers@[i].1@,
        r.body == body_base64,
{
    let mut entries: Vec<HeaderEntry> = Vec::new();
    let mut i: usize = 0;
    while i < headers.len()
        invariant
            i <= headers.len(),
            entries.len() == i,
            forall|k: int| 0 <= k < i ==> (#[trigger] entries@[k]).name@ == headers@[k].0@ && entries@[k].value@ == headers@[k].1@,
        decreases headers.len() - i,
    {
        entries.push(HeaderEntry { name: headers[i].0.clone(), value: headers[i].1.clone() });
        i += 1;
    }
    FulfillRequestParams { request_id: request_id.to_owned(), response_code: status, response_headers: entries, body: body_base64 }
}

/// Fails a paused request as a network failure.
pub fn fail_params(request_id: &str) -> (r: FailRequestParams)
    ensures
        r.request_id@ == request_id@,
        r.error_reason@ == "Failed"@,
{
    FailRequestParams { request_id: request_id.to_owned(), error_reason: "Failed".to_owned() }
}

/// Opens a page at `url` in the browser context `context_id`.
pub fn create_target_params(url: &str, context_id: &str) -> (r: CreateTargetParams)
    ensures
        r.url@ == url@,
        r.browser_context_id matches Some(c) && c@ == context_id@,
{
    CreateTargetParams { url: url.to_owned(), browser_context_id: Some(context_id.to_owned()) }
}

/// Attaches to a target in flat session mode.
pub fn attach_params(target_id: &str) -> (r: AttachToTargetParams)
    ensures
        r.target_id@ == target_id@,
        r.flatten,
{
    AttachToTargetParams { target_id: target_id.to_owned(), flatten: true }
}

/// Whether a lifecycle event marks the page as loaded.
pub fn is_load_milestone(name: &str) -> (r: bool)
    ensures
        r == (name@ == "load"@),
{
    str_eq(name, "load")
}

/// A navigation that did not load within `timeout_ms`.
pub fn navigation_timeout(timeout_ms: u64) -> (r: CdpError)
    ensures
        r == (CdpError::Timeout { millis: timeout_ms }),
{
    CdpError::Timeout { millis: timeout_ms }
}

/// What an evaluation returned: an exception (its details' JSON text) is
/// the error `evaluate threw: <details>`; otherwise the value, absent when
/// the result has none.
pub fn evaluate_outcome(resp: EvaluateResponse) -> (r: Result<Option<RemoteValue>, CdpError>)
    ensures
        match resp.exception_details {
            Some(d) => r matches Err(CdpError::Other(m)) && m@ == "evaluate threw: "@ + d@,
            None => r == Ok::<Option<RemoteValue>, CdpError>(resp.result.value),
        },
{
    match resp.exception_details {
        Some(d) => {
            let mut m = "evaluate threw: ".to_owned();
            m.append(d.as_str());
            Err(CdpError::Other(m))
        },
        None => Ok(resp.result.value),
    }
}

/// The PNG bytes of a captured screenshot, or the error naming invalid
/// base64.
pub fn screenshot_bytes(data: &str) -> (r: Result<Vec<u8>, CdpError>)
    ensures
        match base64_standard_decode(data@) {
            Ok(b) => r matches Ok(v) && v@ == b,
            Err(e) => r matches Err(CdpError::Other(m)) && m@ == "invalid screenshot base64: "@ + e,
        },
{
    match base64_decode(data) {
        Ok(v) => Ok(v),
        Err(e) => {
            let mut m = "invalid screenshot base64: ".to_owned();
            m.append(e.as_str());
            Err(CdpError::Other(m))
        },
    }
}

} // verus!
