//! The shared connection slot: at most one outbound sink, tagged with the
//! session that installed it.
use vstd::prelude::*;

verus! {

/// Why an outbound send did not go out.
#[derive(Debug, PartialEq, Eq)]
pub enum SendError {
    /// No session holds the slot.
    NoConnection,
    /// The transport refused the write; carries its description.
    SendFailed(String),
}

/// The slot after `session` installs `sink`: the new sink replaces any earlier one.
pub open spec fn after_install<S>(entry: Option<(u64, S)>, session: u64, sink: S) -> Option<(u64, S)> {
    Some((session, sink))
}

/// The slot after `session` ends: emptied only when `session` is the one holding it.
pub open spec fn after_release<S>(entry: Option<(u64, S)>, session: u64) -> Option<(u64, S)> {
    match entry {
        Some(e) => if e.0 == session { None } else { entry },
        None => None,
    }
}

/// The session whose sink an outbound send would use, or why there is none.
pub open spec fn send_target<S>(entry: Option<(u64, S)>) -> Result<u64, SendError> {
    match entry {
        Some(e) => Ok(e.0),
        None => Err(SendError::NoConnection),
    }
}

/// The outcome of an outbound send, given what the transport reported.
pub open spec fn send_outcome_spec(transport: Result<(), String>) -> Result<(), SendError> {
    match transport {
        Ok(()) => Ok(()),
        Err(cause) => Err(SendError::SendFailed(cause)),
    }
}

/// Holder of the outbound half of at most one live connection.
pub struct ConnectionSlot<S> {
    entry: Option<(u64, S)>,
}

impl<S> ConnectionSlot<S> {
    /// The session id and sink held, if any.
    pub closed spec fn entry(&self) -> Option<(u64, S)> {
        self.entry
    }

    /// The session that holds the slot, if any.
    pub open spec fn holder(&self) -> Option<u64> {
        match self.entry() {
            Some(e) => Some(e.0),
            None => None,
        }
    }

    /// An empty slot.
    pub fn new() -> (r: Self)
        ensures
            r.entry() is None,
    {
        ConnectionSlot { entry: None }
    }

    /// Installs the sink of a session that completed its handshake, and hands
    /// back the sink it displaced, if any.
    pub fn install(&mut self, session: u64, sink: S) -> (displaced: Option<S>)
        ensures
            final(self).entry() == after_install(old(self).entry(), session, sink),
            displaced == (match old(self).entry() {
                Some(e) => Some(e.1),
                None => None,
            }),
    {
        let prev = self.entry.take();
        self.entry = Some((session, sink));
        match prev {
            Some(e) => Some(e.1),
            None => None,
        }
    }

    /// Clears the slot when `session` ends, provided it still holds it; a
    /// sink installed by a later session stays. Hands back the removed sink.
    pub fn release(&mut self, session: u64) -> (removed: Option<S>)
        ensures
            final(self).entry() == after_release(old(self).entry(), session),
            removed == (match old(self).entry() {
                Some(e) => if e.0 == session { Some(e.1) } else { None },
                None => None,
            }),
    {
        let held = match &self.entry {
            Some(e) => e.0 == session,
            None => false,
        };
        if held {
            match self.entry.take() {
                Some(e) => Some(e.1),
                None => None,
            }
        } else {
            None
        }
    }

    /// The session whose sink an outbound send would use, or `NoConnection`.
    pub fn active_session(&self) -> (r: Result<u64, SendError>)
        ensures
            r == send_target(self.entry()),
    {
        match &self.entry {
            Some(e) => Ok(e.0),
            None => Err(SendError::NoConnection),
        }
    }

    /// The held sink, to write one outbound message through, or `NoConnection`.
    pub fn sink_for_send(&mut self) -> (r: Result<&mut S, SendError>)
        ensures
            old(self).entry() is None <==> r == Err::<&mut S, SendError>(SendError::NoConnection),
            old(self).entry() is None ==> final(self).entry() is None,
            old(self).entry() is Some ==> r is Ok && *r->Ok_0 == old(self).entry()->Some_0.1
                && final(self).entry() == Some((old(self).entry()->Some_0.0, *final(r->Ok_0))),
    {
        match &mut self.entry {
            Some(e) => Ok(&mut e.1),
            None => Err(SendError::NoConnection),
        }
    }
}

/// Once a session has ended and no later session has installed a sink, a
/// send finds no connection.
pub proof fn lemma_send_after_close_fails<S>(entry: Option<(u64, S)>, session: u64)
    requires
        entry is None || entry->Some_0.0 == session,
    ensures
        after_release(entry, session) is None,
        send_target(after_release(entry, session)) == Err::<u64, SendError>(SendError::NoConnection),
{
}

/// While a session's sink is the latest installed, a send goes through that
/// session's sink, and succeeds when the transport accepts the write.
pub proof fn lemma_send_while_relaying<S>(entry: Option<(u64, S)>, session: u64, sink: S)
    ensures
        send_target(after_install(entry, session, sink)) == Ok::<u64, SendError>(session),
        after_install(entry, session, sink) == Some((session, sink)),
        send_outcome_spec(Ok(())) == Ok::<(), SendError>(()),
{
}

/// When a second session installs its sink before the first one ends, the
/// first one's end leaves the second one's sink in place, and sends use it.
pub proof fn lemma_newer_session_keeps_slot<S>(entry: Option<(u64, S)>, first: u64, first_sink: S, second: u64, second_sink: S)
    requires
        first != second,
    ensures
        after_release(after_install(after_install(entry, first, first_sink), second, second_sink), first)
            == Some((second, second_sink)),
        send_target(after_release(after_install(after_install(entry, first, first_sink), second, second_sink), first))
            == Ok::<u64, SendError>(second),
{
}

/// Maps what the transport reported for one outbound write to the result of
/// the send command.
pub fn send_outcome(transport: Result<(), String>) -> (r: Result<(), SendError>)
    ensures
        r == send_outcome_spec(transport),
{
    match transport {
        Ok(()) => Ok(()),
        Err(cause) => Err(SendError::SendFailed(cause)),
    }
}

} // verus!
