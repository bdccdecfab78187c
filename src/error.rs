//! The errors of this library.
use vstd::prelude::*;

verus! {

/// What went wrong.
#[derive(PartialEq, Eq, Structural, Clone, Copy, Debug)]
pub enum Error {
    /// The event loop that a message was sent to no longer exists.
    MessageSender,
    /// The event loop went away before it answered.
    ReceiverError,
}

/// The result of this library's fallible operations.
pub type Result<T> = core::result::Result<T, Error>;

} // verus!
