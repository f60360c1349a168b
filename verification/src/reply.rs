//! Single-use reply handles and the replies delivered through them.
//!
//! A `ReplyHandle` stands for the writing end of a one-shot channel: it is
//! owned, it cannot be cloned, and turning it into a `Reply` consumes it, so
//! a caller's waiting handle can be fulfilled at most once.

use vstd::prelude::*;

verus! {

/// The writing end of a one-shot reply channel, identified by a correlation
/// number. Owned and non-cloneable: fulfilling it consumes it.
pub struct ReplyHandle {
    id: u64,
}

impl View for ReplyHandle {
    type V = u64;

    closed spec fn view(&self) -> u64 {
        self.id
    }
}

impl ReplyHandle {
    /// Mints the handle with the given correlation number. Only the client
    /// facade creates handles, one per issued command.
    pub(crate) fn mint(id: u64) -> (r: ReplyHandle)
        ensures
            r@ == id,
    {
        ReplyHandle { id }
    }

    /// The correlation number of this handle.
    pub fn id(&self) -> (r: u64)
        ensures
            r == self@,
    {
        self.id
    }

    /// Consumes the handle, binding it to its one outcome.
    pub fn fulfill(self, value: ReplyValue) -> (r: Reply)
        ensures
            r.handle == self,
            r.value == value,
    {
        Reply { handle: self, value }
    }
}

/// The outcome carried back to a waiting caller.
#[derive(PartialEq, Eq, Debug)]
pub enum ReplyValue {
    /// The operation completed and has no payload (listen bound, dial
    /// established, advertisement registered).
    Done,
    /// The operation failed; the payload describes the underlying cause.
    Failed(String),
    /// A lookup completed; the payload lists the advertising peers.
    Providers(Vec<u64>),
    /// An outbound file request was answered with this content.
    File(String),
}

/// A fulfilled reply: a consumed handle together with its one outcome.
pub struct Reply {
    pub handle: ReplyHandle,
    pub value: ReplyValue,
}

} // verus!
