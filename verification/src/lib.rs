//! Switching engine of a network KVM server.
//!
//! One physical keyboard and mouse drive the local machine plus any number
//! of remote clients.  The engine ingests the stream of captured input
//! events, watches for the configured switch and kill chords, routes every
//! other event to exactly one target, and orchestrates the clipboard
//! handoff whenever the active target changes.
//!
//! The engine is a plain state machine: each entry point consumes one
//! observation (a captured event, an inbound message, a registration) and
//! returns a disposition telling the surrounding runtime what to do with
//! the sockets, the capture device and the OS clipboard.

pub mod chord;
pub mod clipboard;
pub mod engine;
pub mod event;
pub mod event_writer;
pub mod handshake;
pub mod message;
pub mod session;
