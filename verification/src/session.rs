//! Per-client session policy: what a session pump writes next.
//!
//! A session cooperatively waits on its outbound queue with a deadline of
//! half the message timeout.  The wait's outcome decides the next action;
//! that decision is made here, while the waiting, writing and reading
//! stay with the runtime.

use vstd::prelude::*;
use crate::message::Message;

verus! {

/// Outcome of one bounded wait on a session's outbound queue.
pub enum OutboundPoll {
    /// A queued record arrived within the deadline.
    Received(Message),
    /// The deadline elapsed with the queue idle.
    TimedOut,
    /// The engine dropped its end of the queue.
    Closed,
}

/// What the session pump does next.
pub enum SessionStep {
    /// Write this record to the peer.
    Write(Message),
    /// End the session normally.
    Terminate,
}

/// Decides the session's next action from the outcome of one outbound
/// wait: a queued record is written as is, an idle deadline turns into a
/// keepalive, and a closed queue ends the session.
pub fn outbound_step(poll: OutboundPoll) -> (step: SessionStep)
    ensures
        (match poll {
            OutboundPoll::Received(message) => step == SessionStep::Write(message),
            OutboundPoll::TimedOut => step == SessionStep::Write(Message::KeepAlive),
            OutboundPoll::Closed => step == SessionStep::Terminate,
        }),
{
    match poll {
        OutboundPoll::Received(message) => SessionStep::Write(message),
        OutboundPoll::TimedOut => SessionStep::Write(Message::KeepAlive),
        OutboundPoll::Closed => SessionStep::Terminate,
    }
}

} // verus!
