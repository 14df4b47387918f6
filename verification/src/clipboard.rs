//! Clipboard handoff policy.
//!
//! Reading and writing the OS clipboard is the adapter's business; the
//! decision of what, if anything, to send to the new target on a switch
//! is made here.

use vstd::prelude::*;
use crate::message::Message;

verus! {

/// The record to enqueue for the new target after a switch away from the
/// local machine: the local clipboard's text, when there is any.  An
/// unreadable or empty clipboard sends nothing.
pub fn handoff_message(text: Option<String>) -> (r: Option<Message>)
    ensures
        (match text {
            Some(t) => r == if t@.len() > 0 {
                Some(Message::SetClipboardData(t))
            } else {
                None::<Message>
            },
            None => r is None,
        }),
{
    match text {
        Some(t) => if t.as_str().is_empty() {
            None
        } else {
            Some(Message::SetClipboardData(t))
        },
        None => None,
    }
}

} // verus!
