//! The `Input` domain: synthetic keyboard input.

use vstd::prelude::*;
use crate::cdp::protocol::{Command, EmptyResponse};

verus! {

/// `Input.dispatchKeyEvent`.
pub struct DispatchKeyEvent;

impl Command for DispatchKeyEvent {
    type Params = DispatchKeyEventParams;
    type Response = EmptyResponse;

    const METHOD: &'static str = "Input.dispatchKeyEvent";
}

/// One key event: its type (`keyDown`, `keyUp`, `char`) and whichever of
/// the key, code, virtual-key code and text it carries.
pub struct DispatchKeyEventParams {
    pub kind: String,
    pub key: Option<String>,
    pub code: Option<String>,
    pub windows_virtual_key_code: Option<i64>,
    pub text: Option<String>,
}

/// `Input.insertText`.
pub struct InsertText;

impl Command for InsertText {
    type Params = InsertTextParams;
    type Response = EmptyResponse;

    const METHOD: &'static str = "Input.insertText";
}

/// The text to insert at the focus.
pub struct InsertTextParams {
    pub text: String,
}

} // verus!
