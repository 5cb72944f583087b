//! The handle through which the native side refers to one host-supplied
//! callback function.
//!
//! A handle is a cheap reference: it may be copied freely, and every copy
//! refers to the same host function. While a handle is live it is a
//! commitment to keep the host runtime's event loop alive; releasing it
//! withdraws that commitment, and a released handle must never be invoked
//! again — the adapter's contracts enforce that discipline.

use vstd::prelude::*;

verus! {

/// How an optional handle looks after a release pass: an absent slot stays
/// absent, a present handle keeps its identity and is no longer live.
pub open spec fn released_handle(
    before: Option<CallbackHandle>,
    after: Option<CallbackHandle>,
) -> bool {
    match before {
        None => after is None,
        Some(h) => after matches Some(g) && g.id == h.id && !g.live,
    }
}

/// A reference to one host-supplied callback function.
#[derive(Clone, Copy, PartialEq, Eq, Structural, Debug)]
pub struct CallbackHandle {
    /// Identity of the host function this handle refers to. The unverified
    /// layer that performs the actual calls keys its callback table by it.
    pub id: u64,
    /// Whether this handle may still be invoked. A live handle keeps the
    /// host runtime's event loop alive; a released one does not.
    pub live: bool,
}

impl CallbackHandle {
    /// A fresh, live handle to the host function named by `id`.
    pub fn new(id: u64) -> (h: Self)
        ensures
            h.id == id,
            h.live,
    {
        CallbackHandle { id, live: true }
    }

    /// Releases the handle: it stops keeping the host runtime's event loop
    /// alive and must not be invoked afterwards.
    pub fn release(&mut self)
        ensures
            final(self).id == old(self).id,
            !final(self).live,
    {
        self.live = false;
    }
}

} // verus!
