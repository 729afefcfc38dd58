//! The accept loop's decisions: give up when the address cannot be bound,
//! keep accepting through transient errors, and give each accepted
//! connection a session id that no earlier session had.
use vstd::prelude::*;

verus! {

/// What the accept loop does next.
#[derive(Debug, Clone, Copy, PartialEq, Eq, Structural)]
pub enum ListenerAction {
    /// Start a session with this id for the accepted connection, then accept again.
    Spawn(u64),
    /// Accept the next connection.
    Accept,
    /// Stop for good: the relay is disabled for the life of the process.
    Stop,
}

/// The state of the accept loop.
pub struct Listener {
    bound: bool,
    next_id: u64,
}

impl Listener {
    /// Whether the address was bound.
    pub closed spec fn spec_bound(&self) -> bool {
        self.bound
    }

    /// The id the next spawned session gets; every earlier one is smaller.
    pub closed spec fn spec_next_id(&self) -> u64 {
        self.next_id
    }

    /// A loop that has not bound its address yet.
    pub fn new() -> (r: Self)
        ensures
            !r.spec_bound(),
            r.spec_next_id() == 0,
    {
        Listener { bound: false, next_id: 0 }
    }

    /// Decides on the result of binding the address: accept on success, stop
    /// for good on failure.
    pub fn on_bind(&mut self, bound: bool) -> (r: ListenerAction)
        ensures
            final(self).spec_bound() == bound,
            final(self).spec_next_id() == old(self).spec_next_id(),
            r == (if bound { ListenerAction::Accept } else { ListenerAction::Stop }),
    {
        self.bound = bound;
        if bound {
            ListenerAction::Accept
        } else {
            ListenerAction::Stop
        }
    }

    /// Decides on the result of one accept. A failed accept is transient and
    /// the loop goes on; an accepted connection gets a fresh session id. In
    /// the one case where ids have run out, the connection is dropped.
    pub fn on_accept(&mut self, accepted: bool) -> (r: ListenerAction)
        ensures
            final(self).spec_bound() == old(self).spec_bound(),
            !old(self).spec_bound() ==> r == ListenerAction::Stop && *final(self) == *old(self),
            old(self).spec_bound() && accepted && old(self).spec_next_id() < u64::MAX ==>
                r == ListenerAction::Spawn(old(self).spec_next_id())
                && final(self).spec_next_id() == old(self).spec_next_id() + 1,
            old(self).spec_bound() && !(accepted && old(self).spec_next_id() < u64::MAX) ==>
                r == ListenerAction::Accept && final(self).spec_next_id() == old(self).spec_next_id(),
    {
        if !self.bound {
            return ListenerAction::Stop;
        }
        if accepted && self.next_id < u64::MAX {
            let id = self.next_id;
            self.next_id = self.next_id + 1;
            ListenerAction::Spawn(id)
        } else {
            ListenerAction::Accept
        }
    }
}

} // verus!
