//! The windows that a running event loop keeps, by id.
use std::collections::HashMap;
use vstd::prelude::*;

use crate::WindowId;

verus! {

broadcast use vstd::std_specs::hash::group_hash_axioms;

/// The windows that an event loop keeps alive, each under its id.
///
/// Messages for an id that is not here are dropped; once the last window has
/// been closed the event loop has nothing left to run for.
pub struct WindowRegistry<W> {
    windows: HashMap<WindowId, W>,
}

impl<W> View for WindowRegistry<W> {
    type V = Map<WindowId, W>;

    closed spec fn view(&self) -> Map<WindowId, W> {
        self.windows@
    }
}

impl<W> WindowRegistry<W> {
    /// A registry with no window in it.
    pub fn new() -> (r: Self)
        ensures
            r@ == Map::<WindowId, W>::empty(),
    {
        WindowRegistry { windows: HashMap::new() }
    }

    /// Keeps `window` under `id`, replacing any window that was there.
    pub fn insert(&mut self, id: WindowId, window: W)
        ensures
            final(self)@ == old(self)@.insert(id, window),
    {
        self.windows.insert(id, window);
    }

    /// The window kept under `id`, if any: where a message for `id` goes.
    pub fn get(&self, id: WindowId) -> (r: Option<&W>)
        ensures
            match r {
                Some(w) => self@.contains_key(id) && *w == self@[id],
                None => !self@.contains_key(id),
            },
    {
        self.windows.get(&id)
    }

    /// Whether no window is left.
    pub fn is_empty(&self) -> (r: bool)
        ensures
            r == self@.is_empty(),
    {
        self.windows.is_empty()
    }

    /// Forgets the window under `id` after its close was requested, and
    /// returns whether the event loop should now exit: it should exactly when
    /// no window is left.
    pub fn close(&mut self, id: WindowId) -> (exit: bool)
        ensures
            final(self)@ == old(self)@.remove(id),
            exit == final(self)@.is_empty(),
    {
        self.windows.remove(&id);
        self.windows.is_empty()
    }
}

} // verus!
