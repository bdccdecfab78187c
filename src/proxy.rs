//! Proxies through which other threads drive a running application: they
//! send messages to its event loop.
use std::sync::mpsc::{Receiver, Sender};
use vstd::prelude::*;

use crate::error::{Error, Result};
use crate::message::{Message, WindowMessage};
use crate::window::{Attributes, Icon};
use crate::WindowId;

verus! {

#[verifier::external_type_specification]
#[verifier::external_body]
#[verifier::reject_recursive_types(T)]
pub struct ExReceiver<T>(Receiver<T>);

/// Relies on `std::sync::mpsc::channel`: a new channel, as its sending and
/// its receiving end.
#[verifier::external_body]
fn new_channel<T>() -> (r: (Sender<T>, Receiver<T>)) {
    std::sync::mpsc::channel()
}

/// Relies on `std::sync::mpsc::Sender::send`, which fails only when the
/// receiving end is gone, and then hands the value back.
#[verifier::external_body]
fn send<T>(sender: &Sender<T>, value: T) -> (r: core::result::Result<(), T>)
    ensures
        r matches Err(back) ==> back == value,
{
    sender.send(value).map_err(|e| e.0)
}

/// Relies on `std::sync::mpsc::Receiver::recv`, which waits for a value and
/// fails once every sending end is gone and nothing is left.
#[verifier::external_body]
fn receive<T>(receiver: &Receiver<T>) -> (r: Option<T>) {
    receiver.recv().ok()
}

/// Relies on `Sender`'s `Clone`: another sending end of the same channel.
#[verifier::external_body]
fn clone_sender<T>(sender: &Sender<T>) -> (r: Sender<T>) {
    sender.clone()
}

/// A proxy that sends messages to an application's event loop.
#[verifier::reject_recursive_types(R)]
#[verifier::reject_recursive_types(P)]
pub struct ApplicationProxy<R, P> {
    sender: Sender<Message<R, P>>,
}

/// A channel to an event loop: the proxy that sends to it, and the end the
/// event loop receives from.
pub fn message_channel<R, P>() -> (r: (ApplicationProxy<R, P>, Receiver<Message<R, P>>)) {
    let (sender, receiver) = new_channel();
    (ApplicationProxy { sender }, receiver)
}

impl<R, P> Clone for ApplicationProxy<R, P> {
    fn clone(&self) -> (r: Self) {
        ApplicationProxy { sender: clone_sender(&self.sender) }
    }
}

impl<R, P> ApplicationProxy<R, P> {
    /// Sends `message` to the event loop. Fails with `MessageSender` when the
    /// event loop no longer exists.
    pub fn send_message(&self, message: Message<R, P>) -> (r: Result<()>)
        ensures
            r is Ok || r == Err::<(), Error>(Error::MessageSender),
    {
        match send(&self.sender, message) {
            Ok(()) => Ok(()),
            Err(_) => Err(Error::MessageSender),
        }
    }

    /// Asks the event loop for another webview window, and returns its proxy
    /// once the window exists.
    pub fn add_window(&self, attributes: Attributes) -> (r: Result<WindowProxy<R, P>>)
        ensures
            r matches Err(e) ==> e == Error::MessageSender || e == Error::ReceiverError,
    {
        self.add_window_with_configs(attributes, None, None)
    }

    /// Asks the event loop for another webview window, with an RPC handler
    /// and a custom protocol, and returns its proxy once the window exists.
    ///
    /// Fails with `MessageSender` when the event loop no longer exists, and
    /// with `ReceiverError` when it went away before it answered.
    pub fn add_window_with_configs(
        &self,
        attributes: Attributes,
        rpc_handler: Option<R>,
        custom_protocol: Option<P>,
    ) -> (r: Result<WindowProxy<R, P>>)
        ensures
            r matches Err(e) ==> e == Error::MessageSender || e == Error::ReceiverError,
    {
        let (sender, receiver) = new_channel();
        let message = new_window_message(attributes, sender, rpc_handler, custom_protocol);
        match self.send_message(message) {
            Err(e) => Err(e),
            Ok(()) => self.proxy_for_reply(receive(&receiver)),
        }
    }

    /// What a request for a new window gives once the event loop's reply is
    /// in: a proxy for the window whose id came back, or `ReceiverError` when
    /// the event loop went away without answering.
    pub fn proxy_for_reply(&self, reply: Option<WindowId>) -> (r: Result<WindowProxy<R, P>>)
        ensures
            match reply {
                Some(id) => (r matches Ok(w) && w.window_id() == id),
                None => r == Err::<WindowProxy<R, P>, Error>(Error::ReceiverError),
            },
    {
        match reply {
            Some(id) => Ok(WindowProxy::new(self.clone(), id)),
            None => Err(Error::ReceiverError),
        }
    }
}

/// The request for a new window with these attributes and configurations,
/// whose id is to be sent back through `reply`.
pub fn new_window_message<R, P>(
    attributes: Attributes,
    reply: Sender<WindowId>,
    rpc_handler: Option<R>,
    custom_protocol: Option<P>,
) -> (m: Message<R, P>)
    ensures
        m == Message::NewWindow(attributes, reply, rpc_handler, custom_protocol),
{
    Message::NewWindow(attributes, reply, rpc_handler, custom_protocol)
}

/// A proxy that changes one webview window, by sending messages to the event
/// loop that runs it.
#[verifier::reject_recursive_types(R)]
#[verifier::reject_recursive_types(P)]
pub struct WindowProxy<R, P> {
    proxy: ApplicationProxy<R, P>,
    id: WindowId,
}

impl<R, P> WindowProxy<R, P> {
    /// The id of the window that this proxy changes.
    pub closed spec fn window_id(&self) -> WindowId {
        self.id
    }

    /// A proxy for window `id` that sends through `proxy`.
    pub fn new(proxy: ApplicationProxy<R, P>, id: WindowId) -> (r: Self)
        ensures
            r.window_id() == id,
    {
        WindowProxy { proxy, id }
    }

    /// The id of the window.
    pub fn id(&self) -> (r: WindowId)
        ensures
            r == self.window_id(),
    {
        self.id
    }

    /// The message that makes `change` to this proxy's window.
    pub fn window_message(&self, change: WindowMessage) -> (m: Message<R, P>)
        ensures
            m == Message::<R, P>::Window(self.window_id(), change),
    {
        Message::Window(self.id, change)
    }

    /// Lets the user resize the window, or not.
    /// Fails with `MessageSender` when the event loop no longer exists.
    pub fn set_resizable(&self, resizable: bool) -> (r: Result<()>)
        ensures
            r is Ok || r == Err::<(), Error>(Error::MessageSender),
    {
        self.proxy.send_message(self.window_message(WindowMessage::SetResizable(resizable)))
    }

    /// Sets the window's title.
    /// Fails with `MessageSender` when the event loop no longer exists.
    pub fn set_title<S: Into<String>>(&self, title: S) -> (r: Result<()>)
        ensures
            r is Ok || r == Err::<(), Error>(Error::MessageSender),
    {
        self.proxy.send_message(self.window_message(WindowMessage::SetTitle(title.into())))
    }

    /// Maximizes the window.
    /// Fails with `MessageSender` when the event loop no longer exists.
    pub fn maximize(&self) -> (r: Result<()>)
        ensures
            r is Ok || r == Err::<(), Error>(Error::MessageSender),
    {
        self.proxy.send_message(self.window_message(WindowMessage::Maximize))
    }

    /// Restores the window from maximized.
    /// Fails with `MessageSender` when the event loop no longer exists.
    pub fn unmaximize(&self) -> (r: Result<()>)
        ensures
            r is Ok || r == Err::<(), Error>(Error::MessageSender),
    {
        self.proxy.send_message(self.window_message(WindowMessage::Unmaximize))
    }

    /// Minimizes the window.
    /// Fails with `MessageSender` when the event loop no longer exists.
    pub fn minimize(&self) -> (r: Result<()>)
        ensures
            r is Ok || r == Err::<(), Error>(Error::MessageSender),
    {
        self.proxy.send_message(self.window_message(WindowMessage::Minimize))
    }

    /// Restores the window from minimized.
    /// Fails with `MessageSender` when the event loop no longer exists.
    pub fn unminimize(&self) -> (r: Result<()>)
        ensures
            r is Ok || r == Err::<(), Error>(Error::MessageSender),
    {
        self.proxy.send_message(self.window_message(WindowMessage::Unminimize))
    }

    /// Shows the window.
    /// Fails with `MessageSender` when the event loop no longer exists.
    pub fn show(&self) -> (r: Result<()>)
        ensures
            r is Ok || r == Err::<(), Error>(Error::MessageSender),
    {
        self.proxy.send_message(self.window_message(WindowMessage::Show))
    }

    /// Hides the window.
    /// Fails with `MessageSender` when the event loop no longer exists.
    pub fn hide_window(&self) -> (r: Result<()>)
        ensures
            r is Ok || r == Err::<(), Error>(Error::MessageSender),
    {
        self.proxy.send_message(self.window_message(WindowMessage::Hide))
    }

    /// Closes the window.
    /// Fails with `MessageSender` when the event loop no longer exists.
    pub fn close(&self) -> (r: Result<()>)
        ensures
            r is Ok || r == Err::<(), Error>(Error::MessageSender),
    {
        self.proxy.send_message(self.window_message(WindowMessage::Close))
    }

    /// Turns the window's decorations on or off.
    /// Fails with `MessageSender` when the event loop no longer exists.
    pub fn set_decorations(&self, decorations: bool) -> (r: Result<()>)
        ensures
            r is Ok || r == Err::<(), Error>(Error::MessageSender),
    {
        self.proxy.send_message(self.window_message(WindowMessage::SetDecorations(decorations)))
    }

    /// Keeps the window above the others, or not.
    /// Fails with `MessageSender` when the event loop no longer exists.
    pub fn set_always_on_top(&self, always_on_top: bool) -> (r: Result<()>)
        ensures
            r is Ok || r == Err::<(), Error>(Error::MessageSender),
    {
        self.proxy.send_message(self.window_message(WindowMessage::SetAlwaysOnTop(always_on_top)))
    }

    /// Sets the window's width.
    /// Fails with `MessageSender` when the event loop no longer exists.
    pub fn set_width(&self, width: i32) -> (r: Result<()>)
        ensures
            r is Ok || r == Err::<(), Error>(Error::MessageSender),
    {
        self.proxy.send_message(self.window_message(WindowMessage::SetWidth(width)))
    }

    /// Sets the window's height.
    /// Fails with `MessageSender` when the event loop no longer exists.
    pub fn set_height(&self, height: i32) -> (r: Result<()>)
        ensures
            r is Ok || r == Err::<(), Error>(Error::MessageSender),
    {
        self.proxy.send_message(self.window_message(WindowMessage::SetHeight(height)))
    }

    /// Sets the window's size.
    /// Fails with `MessageSender` when the event loop no longer exists.
    pub fn resize(&self, width: i32, height: i32) -> (r: Result<()>)
        ensures
            r is Ok || r == Err::<(), Error>(Error::MessageSender),
    {
        self.proxy.send_message(self.window_message(WindowMessage::Resize { width, height }))
    }

    /// Sets the window's minimum size.
    /// Fails with `MessageSender` when the event loop no longer exists.
    pub fn set_min_size(&self, min_width: i32, min_height: i32) -> (r: Result<()>)
        ensures
            r is Ok || r == Err::<(), Error>(Error::MessageSender),
    {
        self.proxy.send_message(self.window_message(WindowMessage::SetMinSize { min_width, min_height }))
    }

    /// Sets the window's maximum size.
    /// Fails with `MessageSender` when the event loop no longer exists.
    pub fn set_max_size(&self, max_width: i32, max_height: i32) -> (r: Result<()>)
        ensures
            r is Ok || r == Err::<(), Error>(Error::MessageSender),
    {
        self.proxy.send_message(self.window_message(WindowMessage::SetMaxSize { max_width, max_height }))
    }

    /// Sets the horizontal position of the window's frame.
    /// Fails with `MessageSender` when the event loop no longer exists.
    pub fn set_x(&self, x: i32) -> (r: Result<()>)
        ensures
            r is Ok || r == Err::<(), Error>(Error::MessageSender),
    {
        self.proxy.send_message(self.window_message(WindowMessage::SetX(x)))
    }

    /// Sets the vertical position of the window's frame.
    /// Fails with `MessageSender` when the event loop no longer exists.
    pub fn set_y(&self, y: i32) -> (r: Result<()>)
        ensures
            r is Ok || r == Err::<(), Error>(Error::MessageSender),
    {
        self.proxy.send_message(self.window_message(WindowMessage::SetY(y)))
    }

    /// Sets the position of the window's frame.
    /// Fails with `MessageSender` when the event loop no longer exists.
    pub fn set_position(&self, x: i32, y: i32) -> (r: Result<()>)
        ensures
            r is Ok || r == Err::<(), Error>(Error::MessageSender),
    {
        self.proxy.send_message(self.window_message(WindowMessage::SetPosition { x, y }))
    }

    /// Makes the window fullscreen, or not.
    /// Fails with `MessageSender` when the event loop no longer exists.
    pub fn set_fullscreen(&self, fullscreen: bool) -> (r: Result<()>)
        ensures
            r is Ok || r == Err::<(), Error>(Error::MessageSender),
    {
        self.proxy.send_message(self.window_message(WindowMessage::SetFullscreen(fullscreen)))
    }

    /// Sets the window's icon.
    /// Fails with `MessageSender` when the event loop no longer exists.
    pub fn set_icon(&self, icon: Icon) -> (r: Result<()>)
        ensures
            r is Ok || r == Err::<(), Error>(Error::MessageSender),
    {
        self.proxy.send_message(self.window_message(WindowMessage::SetIcon(icon)))
    }

    /// Runs a script in the window's webview.
    /// Fails with `MessageSender` when the event loop no longer exists.
    pub fn evaluate_script<S: Into<String>>(&self, script: S) -> (r: Result<()>)
        ensures
            r is Ok || r == Err::<(), Error>(Error::MessageSender),
    {
        self.proxy.send_message(self.window_message(WindowMessage::EvaluationScript(script.into())))
    }
}

} // verus!
