//! The wire records exchanged with a client, and the protocol constants.
//!
//! The byte encoding of a record is the framed codec's business and is not
//! modelled here; the engine deals in whole records only.

use vstd::prelude::*;
use crate::event::Event;

verus! {

/// Version scalar both sides exchange before any other traffic; a peer
/// presenting a different one is dropped during the handshake.
pub const PROTOCOL_VERSION: u16 = 1;

/// Milliseconds an outbound frame write may stall before its session is
/// torn down.  An idle peer must send a keepalive every half of this.
pub const MESSAGE_TIMEOUT_MS: u64 = 5000;

/// One framed record.
#[derive(Clone, PartialEq, Eq, Debug)]
pub enum Message {
    /// First record a client sends after the version exchange.
    Hello(String),
    /// An input event destined for the client.
    Event(Event),
    /// "Make your clipboard equal to this."
    SetClipboardData(String),
    /// "Send me your clipboard as a later `SetClipboardData`."
    GetClipboardData,
    /// Ask the peer to display a desktop notification.
    Notify(String),
    /// Idle heartbeat with no semantic effect.
    KeepAlive,
}

} // verus!
