//! Staging of raw device records for the local injection device.
//!
//! Each injected event becomes two raw records: the event itself and a
//! synchronization report.  The writer stages them in order; the runtime
//! drains the queue to the real device.

use vstd::prelude::*;
use crate::event::{
    EV_KEY, EV_REL, EV_SYN, Event, KEY_MAX, REL_MAX, RawEvent, SYN_REPORT, raw_of, syn_event,
};

verus! {

/// Whether the injection device registers `(kind, code)`: the
/// synchronization report, every relative-motion code, and every key and
/// button code up to the device's maximum.
pub open spec fn device_code(kind: u16, code: u16) -> bool {
    (kind == EV_SYN && code == SYN_REPORT) || (kind == EV_REL && code <= REL_MAX) || (kind
        == EV_KEY && code <= KEY_MAX)
}

/// The full list of `(kind, code)` pairs the injection device has to
/// register at setup, each exactly once.
pub fn device_codes() -> (r: Vec<(u16, u16)>)
    ensures
        forall|kind: u16, code: u16| r@.contains((kind, code)) <==> device_code(kind, code),
        r@.no_duplicates(),
{
    let mut r: Vec<(u16, u16)> = Vec::new();
    r.push((EV_SYN, SYN_REPORT));
    proof {
        assert forall|k: u16, c: u16|
            r@.contains((k, c)) <==> (k == EV_SYN && c == SYN_REPORT) by {
            vstd::seq_lib::lemma_seq_contains_after_push(
                Seq::<(u16, u16)>::empty(),
                (EV_SYN, SYN_REPORT),
                (k, c),
            );
            assert(!Seq::<(u16, u16)>::empty().contains((k, c)));
        }
    }
    let mut code: u16 = 0;
    while code <= REL_MAX
        invariant
            code <= REL_MAX + 1,
            forall|k: u16, c: u16|
                r@.contains((k, c)) <==> ((k == EV_SYN && c == SYN_REPORT) || (k == EV_REL && c
                    < code)),
            r@.no_duplicates(),
        decreases REL_MAX + 1 - code,
    {
        let ghost r0 = r@;
        proof {
            assert(!r0.contains((EV_REL, code)));
        }
        r.push((EV_REL, code));
        code += 1;
        proof {
            assert forall|k: u16, c: u16|
                r@.contains((k, c)) <==> ((k == EV_SYN && c == SYN_REPORT) || (k == EV_REL && c
                    < code)) by {
                vstd::seq_lib::lemma_seq_contains_after_push(r0, (EV_REL, (code - 1) as u16), (k, c));
            }
        }
    }
    let mut code: u16 = 0;
    while code <= KEY_MAX
        invariant
            code <= KEY_MAX + 1,
            forall|k: u16, c: u16|
                r@.contains((k, c)) <==> ((k == EV_SYN && c == SYN_REPORT) || (k == EV_REL && c
                    <= REL_MAX) || (k == EV_KEY && c < code)),
            r@.no_duplicates(),
        decreases KEY_MAX + 1 - code,
    {
        let ghost r0 = r@;
        proof {
            assert(!r0.contains((EV_KEY, code)));
        }
        r.push((EV_KEY, code));
        code += 1;
        proof {
            assert forall|k: u16, c: u16|
                r@.contains((k, c)) <==> ((k == EV_SYN && c == SYN_REPORT) || (k == EV_REL && c
                    <= REL_MAX) || (k == EV_KEY && c < code)) by {
                vstd::seq_lib::lemma_seq_contains_after_push(r0, (EV_KEY, (code - 1) as u16), (k, c));
            }
        }
    }
    r
}

/// Queue of raw records awaiting injection into the local system.
pub struct EventWriter {
    pending: Vec<RawEvent>,
}

impl View for EventWriter {
    type V = Seq<RawEvent>;

    closed spec fn view(&self) -> Seq<RawEvent> {
        self.pending@
    }
}

impl EventWriter {
    /// A writer with nothing staged.
    pub fn new() -> (w: EventWriter)
        ensures
            w@ == Seq::<RawEvent>::empty(),
    {
        EventWriter { pending: Vec::new() }
    }

    /// Stages one event for injection: its raw record followed by a
    /// synchronization report.
    pub fn write(&mut self, event: Event)
        ensures
            final(self)@ == old(self)@ + seq![raw_of(event), syn_event()],
    {
        let raw = crate::event::event_to_raw(&event);
        self.pending.push(raw);
        self.pending.push(RawEvent { kind: EV_SYN, code: SYN_REPORT, value: 0 });
        proof {
            assert(self.pending@ =~= old(self)@ + seq![raw_of(event), syn_event()]);
        }
    }

    /// Hands the staged records over for the device write and leaves the
    /// queue empty.
    pub fn take(&mut self) -> (drained: Vec<RawEvent>)
        ensures
            drained@ == old(self)@,
            final(self)@ == Seq::<RawEvent>::empty(),
    {
        let mut drained: Vec<RawEvent> = Vec::new();
        core::mem::swap(&mut drained, &mut self.pending);
        drained
    }
}

} // verus!
