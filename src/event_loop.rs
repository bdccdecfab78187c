//! What the event loop does with each message it receives.
use std::sync::mpsc::Sender;
use vstd::prelude::*;

use crate::message::{Message, WindowMessage};
use crate::registry::WindowRegistry;
use crate::window::Attributes;
use crate::WindowId;

verus! {

/// What the event loop is to do with a message.
pub enum LoopStep<R, P> {
    /// Create a window with these attributes and configurations, keep it, and
    /// send its id back through the sender.
    Create(Attributes, Sender<WindowId>, Option<R>, Option<P>),
    /// Make this change to the window kept under this id.
    Apply(WindowId, WindowMessage),
    /// Drop the message: its window is no longer kept.
    Ignore,
}

/// What to do with `message`, given the windows the event loop keeps: a
/// request for a window is carried out, and a change goes to its window if
/// that window is still kept.
pub fn loop_step<W, R, P>(windows: &WindowRegistry<W>, message: Message<R, P>) -> (r: LoopStep<R, P>)
    ensures
        match message {
            Message::NewWindow(a, s, h, p) => r == LoopStep::Create(a, s, h, p),
            Message::Window(id, change) => if windows@.contains_key(id) {
                r == LoopStep::<R, P>::Apply(id, change)
            } else {
                r is Ignore
            },
        },
{
    match message {
        Message::NewWindow(a, s, h, p) => LoopStep::Create(a, s, h, p),
        Message::Window(id, change) => {
            if windows.get(id).is_some() {
                LoopStep::Apply(id, change)
            } else {
                LoopStep::Ignore
            }
        },
    }
}

/// The size a window takes on a change of its size, given its current
/// `(width, height)`: a change of one side keeps the other. None for a change
/// that is not of its size.
pub fn new_size(change: &WindowMessage, current: (i32, i32)) -> (r: Option<(i32, i32)>)
    ensures
        r == match *change {
            WindowMessage::SetWidth(w) => Some((w, current.1)),
            WindowMessage::SetHeight(h) => Some((current.0, h)),
            WindowMessage::Resize { width, height } => Some((width, height)),
            _ => None,
        },
{
    match change {
        WindowMessage::SetWidth(w) => Some((*w, current.1)),
        WindowMessage::SetHeight(h) => Some((current.0, *h)),
        WindowMessage::Resize { width, height } => Some((*width, *height)),
        _ => None,
    }
}

} // verus!
