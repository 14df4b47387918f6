use rkvm_server::chord::ChordMap;
use rkvm_server::clipboard::handoff_message;
use rkvm_server::engine::{Engine, InputDisposition};
use rkvm_server::event::{Direction, Event, KeyKind, RawEvent, event_to_raw};
use rkvm_server::event_writer::EventWriter;
use rkvm_server::handshake::{accept_client, version_compatible};
use rkvm_server::message::{Message, PROTOCOL_VERSION};
use rkvm_server::session::{OutboundPoll, SessionStep, outbound_step};

fn key(direction: Direction, code: u16) -> Event {
    Event::Key { direction, kind: KeyKind::Key(code) }
}

#[test]
fn chord_of_one_key_fires_once_per_press() {
    let mut engine = Engine::new(&vec![7], &vec![99]);
    let fire = engine.step_input_event(key(Direction::Down, 7));
    assert!(matches!(fire, InputDisposition::Switched { .. }));
    // The release must not fire it a second time.
    let release = engine.step_input_event(key(Direction::Up, 7));
    assert!(matches!(release, InputDisposition::WriteLocal { .. }));
    // A fresh press fires again.
    let press = engine.step_input_event(key(Direction::Down, 7));
    assert!(matches!(press, InputDisposition::Switched { .. }));
}

#[test]
fn overlapping_chord_keys_update_both_trackers() {
    let mut engine = Engine::new(&vec![1, 2], &vec![1, 3]);
    engine.step_input_event(key(Direction::Down, 1));
    assert_eq!(engine.switch_chord.is_pressed(1), Some(true));
    assert_eq!(engine.kill_chord.is_pressed(1), Some(true));
    engine.step_input_event(key(Direction::Up, 1));
    assert_eq!(engine.switch_chord.is_pressed(1), Some(false));
    assert_eq!(engine.kill_chord.is_pressed(1), Some(false));
}

#[test]
fn switch_fire_leaves_kill_tracker_alone() {
    let mut engine = Engine::new(&vec![1], &vec![1, 3]);
    engine.step_input_event(key(Direction::Down, 3));
    // Key 1 completes the switch chord; the fire resets only the switch
    // tracker, the kill tracker keeps both its entries.
    let d = engine.step_input_event(key(Direction::Down, 1));
    assert!(matches!(d, InputDisposition::Switched { .. }));
    assert_eq!(engine.switch_chord.is_pressed(1), Some(false));
    assert_eq!(engine.kill_chord.is_pressed(1), Some(true));
    assert_eq!(engine.kill_chord.is_pressed(3), Some(true));
}

#[test]
fn chord_map_tracks_only_configured_keys() {
    let mut chord = ChordMap::new(&vec![10, 20, 20]);
    assert_eq!(chord.is_pressed(10), Some(false));
    assert_eq!(chord.is_pressed(20), Some(false));
    assert_eq!(chord.is_pressed(30), None);
    chord.record(30, true);
    assert_eq!(chord.is_pressed(30), None);
    chord.record(10, true);
    assert_eq!(chord.is_pressed(10), Some(true));
    assert!(!chord.complete());
    chord.record(20, true);
    assert!(chord.complete());
    chord.reset();
    assert!(!chord.complete());
    assert_eq!(chord.is_pressed(10), Some(false));
    assert_eq!(chord.is_pressed(20), Some(false));
}

#[test]
fn empty_chord_never_fires() {
    let chord = ChordMap::new(&vec![]);
    assert!(!chord.complete());
}

#[test]
fn version_gate() {
    assert!(version_compatible(PROTOCOL_VERSION));
    assert!(!version_compatible(PROTOCOL_VERSION + 1));
    assert!(accept_client(PROTOCOL_VERSION + 1, Message::Hello("laptop".to_string())).is_none());
    assert!(accept_client(PROTOCOL_VERSION, Message::KeepAlive).is_none());
    let admitted = accept_client(PROTOCOL_VERSION, Message::Hello("laptop".to_string()));
    assert_eq!(admitted.expect("a matching hello is accepted").name, "laptop");
}

#[test]
fn session_outbound_policy() {
    let queued = outbound_step(OutboundPoll::Received(Message::GetClipboardData));
    assert!(matches!(queued, SessionStep::Write(Message::GetClipboardData)));
    let idle = outbound_step(OutboundPoll::TimedOut);
    assert!(matches!(idle, SessionStep::Write(Message::KeepAlive)));
    let closed = outbound_step(OutboundPoll::Closed);
    assert!(matches!(closed, SessionStep::Terminate));
}

#[test]
fn clipboard_handoff_skips_empty_text() {
    assert_eq!(handoff_message(None), None);
    assert_eq!(handoff_message(Some(String::new())), None);
    assert_eq!(
        handoff_message(Some("hi".to_string())),
        Some(Message::SetClipboardData("hi".to_string()))
    );
}

#[test]
fn raw_records_for_key_and_passthrough_events() {
    let down = event_to_raw(&key(Direction::Down, 30));
    assert_eq!(down, RawEvent { kind: 1, code: 30, value: 1 });
    let up = event_to_raw(&key(Direction::Up, 30));
    assert_eq!(up, RawEvent { kind: 1, code: 30, value: 0 });
    let button = event_to_raw(&Event::Key { direction: Direction::Down, kind: KeyKind::Button(272) });
    assert_eq!(button, RawEvent { kind: 1, code: 272, value: 1 });
    let motion = RawEvent { kind: 2, code: 0, value: -7 };
    assert_eq!(event_to_raw(&Event::Other(motion)), motion);
}

#[test]
fn device_code_table() {
    let codes = rkvm_server::event_writer::device_codes();
    // One syn report, sixteen relative-motion codes, 566 key codes.
    assert_eq!(codes.len(), 1 + 16 + 566);
    assert!(codes.contains(&(0, 0)));
    assert!(codes.contains(&(2, 15)));
    assert!(codes.contains(&(1, 565)));
    assert!(!codes.contains(&(1, 566)));
    assert!(!codes.contains(&(2, 16)));
    assert!(!codes.contains(&(3, 0)));
}

#[test]
fn event_writer_stages_event_then_syn() {
    let mut writer = EventWriter::new();
    writer.write(key(Direction::Down, 30));
    writer.write(Event::Other(RawEvent { kind: 2, code: 1, value: 4 }));
    let drained = writer.take();
    assert_eq!(
        drained,
        vec![
            RawEvent { kind: 1, code: 30, value: 1 },
            RawEvent { kind: 0, code: 0, value: 0 },
            RawEvent { kind: 2, code: 1, value: 4 },
            RawEvent { kind: 0, code: 0, value: 0 },
        ]
    );
    assert!(writer.take().is_empty());
}
