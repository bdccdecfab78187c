//! The messages that an application's event loop takes.
use std::sync::mpsc::Sender;
use vstd::prelude::*;

use crate::window::{Attributes, Icon};
use crate::WindowId;

verus! {

#[verifier::external_type_specification]
#[verifier::external_body]
#[verifier::reject_recursive_types(T)]
pub struct ExSender<T>(Sender<T>);

/// A change to a webview window.
pub enum WindowMessage {
    SetResizable(bool),
    SetTitle(String),
    Maximize,
    Unmaximize,
    Minimize,
    Unminimize,
    Show,
    Hide,
    Close,
    SetDecorations(bool),
    SetAlwaysOnTop(bool),
    SetWidth(i32),
    SetHeight(i32),
    Resize { width: i32, height: i32 },
    SetMinSize { min_width: i32, min_height: i32 },
    SetMaxSize { max_width: i32, max_height: i32 },
    SetX(i32),
    SetY(i32),
    SetPosition { x: i32, y: i32 },
    SetFullscreen(bool),
    SetIcon(Icon),
    EvaluationScript(String),
}

/// A message for the event loop. `R` is the type of a window's RPC handler
/// and `P` that of a custom protocol.
pub enum Message<R, P> {
    /// A change to the window with this id.
    Window(WindowId, WindowMessage),
    /// A new window to create, whose id goes back through the sender.
    NewWindow(Attributes, Sender<WindowId>, Option<R>, Option<P>),
}

} // verus!
