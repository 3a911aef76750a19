//! Handles: the tokens that stand for one transport session each.

use vstd::prelude::*;

verus! {

/// An opaque token for one transport session.
///
/// Handles are issued by the connection machine, one per successful connect,
/// and every lifecycle event names the handle of the session it came from.
/// The view of a handle is its identity, a natural number.
#[derive(Clone, Copy, Debug, PartialEq, Eq, Structural, Hash)]
pub struct Handle {
    id: u64,
}

impl View for Handle {
    type V = nat;

    closed spec fn view(&self) -> nat {
        self.id as nat
    }
}

impl Handle {
    /// The handle with the given identity.
    pub(crate) fn issue(id: u64) -> (h: Handle)
        ensures
            h@ == id,
    {
        Handle { id }
    }

    /// The identity of the handle as a number.
    pub fn id(&self) -> (id: u64)
        ensures
            id == self@,
    {
        self.id
    }

    /// Two handles with the same identity are the same handle.
    pub proof fn lemma_identity(self, other: Handle)
        ensures
            self@ == other@ <==> self == other,
    {
    }
}

} // verus!
