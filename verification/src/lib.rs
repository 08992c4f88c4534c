//! A Chrome DevTools Protocol client core: the request and response logic,
//! the message routing, the launch decisions and the stealth helpers of a
//! browser automation library, each with a verified contract.
//!
//! The asynchronous transport (WebSocket, HTTP, processes, timers) lives in
//! the companion application crate, which feeds the events it observes into
//! the functions of this crate and performs the actions they decide.

pub mod browser;
pub mod commands;
pub mod connection;
pub mod element;
pub mod encoding;
pub mod error;
pub mod json;
pub mod page;
pub mod reply;
pub mod stealth;
pub mod text;

pub use browser::BrowserConfig;
pub use connection::client::{CdpRequest, RequestIds};
pub use connection::handler::{ReplyRouter, Routed};
pub use error::{XcelerateError, XcelerateResult};
pub use json::{Json, JsonNumber};
pub use stealth::{BinaryPatcher, ProcessGuard, ProcessRegistry};
