//! A single-connection WebSocket relay core.
//!
//! The library holds the decisions of the relay: which sink is the active
//! one, what a session does on each event, what the accept loop does with
//! each accepted connection, and how an outbound send is answered. The
//! runtime around it performs the I/O and reports back.
use vstd::prelude::*;

pub mod listener;
pub mod session;
pub mod slot;

verus! {

} // verus!
