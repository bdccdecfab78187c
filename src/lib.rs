//! Window and webview messaging for a cross-platform webview layer: the
//! messages an application sends to its event loop, the proxies that send
//! them, the state the event loop keeps, file-drop tracking, the in-page RPC
//! bridge and the custom URI-scheme conventions.
use vstd::prelude::*;

pub mod chars;
pub mod error;
pub mod event_loop;
pub mod file_drop;
pub mod message;
pub mod protocol;
pub mod proxy;
pub mod registry;
pub mod rpc;
pub mod text;
pub mod version;
pub mod webview;
pub mod window;

verus! {

/// The id under which the event loop knows a window.
pub type WindowId = u32;

} // verus!
