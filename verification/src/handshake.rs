//! Admission of a freshly connected peer.
//!
//! After the transport is up, both sides exchange a protocol version and
//! the peer introduces itself with a hello record.  Whether the peer gets
//! into the roster is decided here; the accept loop only moves bytes and
//! drops the connection when the decision is negative.

use vstd::prelude::*;
use crate::engine::Client;
use crate::message::{Message, PROTOCOL_VERSION};

verus! {

/// Whether a peer's version scalar allows the handshake to continue; a
/// mismatch drops the connection before any further record is read.
pub fn version_compatible(version: u16) -> (r: bool)
    ensures
        r <==> version == PROTOCOL_VERSION,
{
    version == PROTOCOL_VERSION
}

/// The roster entry for a peer, or nothing.  A peer is accepted exactly
/// when its version matches and its first record is a hello; the entry
/// then carries the name the hello presented.  In particular, a peer
/// presenting any other version never gets in.
pub fn accept_client(version: u16, first: Message) -> (r: Option<Client>)
    ensures
        (match first {
            Message::Hello(name) => if version == PROTOCOL_VERSION {
                r matches Some(client) && client.name == name
            } else {
                r is None
            },
            _ => r is None,
        }),
{
    if version != PROTOCOL_VERSION {
        return None;
    }
    match first {
        Message::Hello(name) => Some(Client { name }),
        _ => None,
    }
}

} // verus!
