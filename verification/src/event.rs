//! Input events as delivered by the capture device.

use vstd::prelude::*;

verus! {

/// Identifier of a physical key, as reported by the capture device.
pub type KeyCode = u16;

/// Raw record type for synchronization events.
pub const EV_SYN: u16 = 0;

/// Raw record type for key and button transitions.
pub const EV_KEY: u16 = 1;

/// Raw record type for relative pointer motion.
pub const EV_REL: u16 = 2;

/// Code of the synchronization report that terminates each device write.
pub const SYN_REPORT: u16 = 0;

/// Highest relative-motion code the injection device registers.
pub const REL_MAX: u16 = 15;

/// Highest key code the injection device registers.
pub const KEY_MAX: u16 = 565;

/// Whether a key went down or came back up.
#[derive(Clone, Copy, PartialEq, Eq, Structural, Debug)]
pub enum Direction {
    Up,
    Down,
}

/// What kind of control a key transition belongs to.
#[derive(Clone, Copy, PartialEq, Eq, Structural, Debug)]
pub enum KeyKind {
    /// A keyboard key.
    Key(KeyCode),
    /// A pointer button.
    Button(KeyCode),
}

/// One raw device record: a (type, code, value) triple in the shape the
/// injection device consumes.
#[derive(Clone, Copy, PartialEq, Eq, Structural, Debug)]
pub struct RawEvent {
    pub kind: u16,
    pub code: u16,
    pub value: i32,
}

/// An event read from the capture source.  Key transitions are inspected
/// by the chord detectors; everything else passes through unchanged.
#[derive(Clone, Copy, PartialEq, Eq, Structural, Debug)]
pub enum Event {
    Key { direction: Direction, kind: KeyKind },
    Other(RawEvent),
}

/// The keyboard key a captured event presses or releases, if any, paired
/// with whether it is now down.  Button and pass-through events carry no
/// chord-relevant key.
pub open spec fn event_key(event: Event) -> Option<(KeyCode, bool)> {
    match event {
        Event::Key { direction, kind: KeyKind::Key(code) } => Some(
            (code, direction == Direction::Down),
        ),
        _ => None,
    }
}

/// The code behind a key or button transition.
pub open spec fn key_code_of(kind: KeyKind) -> KeyCode {
    match kind {
        KeyKind::Key(code) => code,
        KeyKind::Button(code) => code,
    }
}

/// The raw device record an event is injected as.
pub open spec fn raw_of(event: Event) -> RawEvent {
    match event {
        Event::Key { direction, kind } => RawEvent {
            kind: EV_KEY,
            code: key_code_of(kind),
            value: if direction == Direction::Down {
                1
            } else {
                0
            },
        },
        Event::Other(raw) => raw,
    }
}

/// The synchronization record that follows every injected event.
pub open spec fn syn_event() -> RawEvent {
    RawEvent { kind: EV_SYN, code: SYN_REPORT, value: 0 }
}

/// Converts an event to the raw record the injection device consumes.
pub fn event_to_raw(event: &Event) -> (r: RawEvent)
    ensures
        r == raw_of(*event),
{
    match *event {
        Event::Key { direction, kind } => RawEvent {
            kind: EV_KEY,
            code: match kind {
                KeyKind::Key(code) => code,
                KeyKind::Button(code) => code,
            },
            value: if direction == Direction::Down {
                1
            } else {
                0
            },
        },
        Event::Other(raw) => raw,
    }
}

} // verus!
