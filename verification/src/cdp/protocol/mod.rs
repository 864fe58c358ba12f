//! The CDP commands and events this client uses, each with its method name
//! and the shapes of its parameters, response or payload. JSON values are
//! carried as their JSON text; header maps as lists of name/value pairs.

pub mod browser;
pub mod dom;
pub mod fetch;
pub mod input;
pub mod network;
pub mod page;
pub mod runtime;
pub mod target;

use vstd::prelude::*;

verus! {

/// A CDP command: its method name and its parameter and response shapes.
pub trait Command {
    type Params;
    type Response;

    /// The method name sent on the wire.
    const METHOD: &'static str;
}

/// A CDP event, recognised by its method name.
pub trait CdpEvent {
    /// The method name the event arrives under.
    const METHOD: &'static str;
}

/// The parameters of a command that takes none (sent as `{}`).
pub struct EmptyParams {}

/// The response of a command that returns `{}`.
pub struct EmptyResponse {}

} // verus!
