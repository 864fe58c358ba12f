//! The CDP client's decisions: browser discovery and launch flags, the
//! managed headless shell's cache layout, and routing of incoming
//! messages.

pub mod connection;
pub mod discovery;
pub mod download;
pub mod error;
pub mod launch;
pub mod ops;
pub mod os_input;
pub mod protocol;
pub mod session;
pub mod transport;
