//! The `Runtime` domain.

use vstd::prelude::*;
use crate::cdp::protocol::{CdpEvent, Command, EmptyParams, EmptyResponse};

verus! {

/// `Runtime.enable`.
pub struct Enable;

impl Command for Enable {
    type Params = EmptyParams;
    type Response = EmptyResponse;

    const METHOD: &'static str = "Runtime.enable";
}

/// `Runtime.addBinding`: exposes `window.<name>(payload)` in the page as a
/// call back into this process, reported as `BindingCalled`.
pub struct AddBinding;

impl Command for AddBinding {
    type Params = AddBindingParams;
    type Response = EmptyResponse;

    const METHOD: &'static str = "Runtime.addBinding";
}

/// The binding's name.
pub struct AddBindingParams {
    pub name: String,
}

/// `Runtime.removeBinding`.
pub struct RemoveBinding;

impl Command for RemoveBinding {
    type Params = RemoveBindingParams;
    type Response = EmptyResponse;

    const METHOD: &'static str = "Runtime.removeBinding";
}

/// The binding's name.
pub struct RemoveBindingParams {
    pub name: String,
}

/// One call of a bound function.
pub struct BindingCalled {
    pub name: String,
    pub payload: String,
}

impl CdpEvent for BindingCalled {
    const METHOD: &'static str = "Runtime.bindingCalled";
}

/// `Runtime.evaluate`.
pub struct Evaluate;

impl Command for Evaluate {
    type Params = EvaluateParams;
    type Response = EvaluateResponse;

    const METHOD: &'static str = "Runtime.evaluate";
}

/// An expression to evaluate; absent options are left out.
pub struct EvaluateParams {
    pub expression: String,
    pub return_by_value: Option<bool>,
    pub await_promise: Option<bool>,
}

impl EvaluateParams {
    /// Evaluates `expression`, awaiting a promise it returns and returning
    /// the result by value.
    pub fn new(expression: &str) -> (r: Self)
        ensures
            r.expression@ == expression@,
            r.return_by_value == Some(true),
            r.await_promise == Some(true),
    {
        EvaluateParams { expression: expression.to_owned(), return_by_value: Some(true), await_promise: Some(true) }
    }
}

/// The result, and the exception's details (as JSON text) when it threw.
pub struct EvaluateResponse {
    pub result: RemoteObject,
    pub exception_details: Option<String>,
}

/// A primitive JavaScript value sent by value.
pub enum RemoteValue {
    /// A string.
    Str(String),
    /// Any other JSON value, as its JSON text.
    Json(String),
}

/// A JavaScript value or a handle to one.
pub struct RemoteObject {
    /// Its type (`string`, `object`, `function`, ...).
    pub kind: String,
    pub subtype: Option<String>,
    pub value: Option<RemoteValue>,
    pub description: Option<String>,
}

} // verus!
