//! Sans-I/O core of an adapter between a native X11 connection handle and a
//! protocol display: wire framing, error classification, reply and event
//! correlation, the pending-descriptor set and the extension registry.

pub mod auth;
pub mod cbox;
pub mod display;
pub mod error;
pub mod extension;
pub mod handle;
pub mod pending;
pub mod reply;
pub mod request;
mod sealed;
pub mod setup;
pub mod wire;
pub mod xlib;

pub use display::XcbDisplay;
pub use reply::XcbReply;
pub use xlib::{ThreadSafe, ThreadSafety, ThreadUnsafe, XlibDisplay};
