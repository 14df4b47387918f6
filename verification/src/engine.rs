//! The switching engine.
//!
//! The engine owns the client roster, the index of the active target, and
//! the two chord trackers.  Index `0` is the local machine; index `k > 0`
//! addresses `clients[k - 1]`.  Each entry point consumes one observation
//! and returns a disposition; the runtime around the engine performs the
//! sends, local writes, clipboard accesses and notifications the
//! disposition calls for, and reports an input-event send failure back
//! through [`Engine::forward_failed`].

use vstd::prelude::*;
use crate::chord::{ChordMap, chord_cleared, chord_complete, chord_update};
use crate::event::{Direction, Event, KeyCode, KeyKind, event_key};
use crate::message::Message;

verus! {

/// A remote peer that has completed the version and hello handshake.
/// Its outbound queue lives with the runtime, keyed by roster position.
pub struct Client {
    pub name: String,
}

/// The index arrived at by one switch: the next target in the cycle
/// local, client 1, .., client n, local.
pub open spec fn next_target(current: int, clients: int) -> int {
    (current + 1) % (clients + 1)
}

/// `count` switches applied in a row.
pub open spec fn switched_times(current: int, clients: int, count: nat) -> int
    decreases count,
{
    if count == 0 {
        current
    } else {
        next_target(switched_times(current, clients, (count - 1) as nat), clients)
    }
}

/// Text of the notification shown on the target a switch lands on.
pub open spec fn switch_notice() -> Seq<char> {
    "I'm over here now!"@
}

/// Reason the engine reports when the kill chord ends it.
pub open spec fn kill_reason() -> Seq<char> {
    "Kilt"@
}

/// The chord states after accounting for one captured event.
pub open spec fn chords_after(m: Map<KeyCode, bool>, event: Event) -> Map<KeyCode, bool> {
    match event_key(event) {
        Some((key, down)) => chord_update(m, key, down),
        None => m,
    }
}

/// How the target a switch lands on is told about it: by a local desktop
/// notification when input comes home, by a `Notify` record otherwise.
#[derive(PartialEq, Eq, Debug)]
pub enum NotifyPlan {
    Local,
    Client { idx: usize, message: Message },
}

/// The clipboard half of a switch.  Leaving the local machine pushes the
/// local clipboard to the new client; leaving a client asks it to send
/// its clipboard back, to be routed when the reply arrives.
#[derive(PartialEq, Eq, Debug)]
pub enum HandoffPlan {
    /// Local to local: the roster is empty, there is nothing to hand off.
    Skip,
    /// Read the local clipboard and, when it has text, enqueue it on
    /// `clients[idx]` (best effort).
    PushLocal { idx: usize },
    /// Enqueue this request on `clients[idx]` (best effort).
    PullRemote { idx: usize, message: Message },
}

/// What one captured event amounts to.  Exactly one disposition comes
/// back per event.
#[derive(PartialEq, Eq, Debug)]
pub enum InputDisposition {
    /// The switch chord fired; the event is consumed.
    Switched { previous: usize, notify: NotifyPlan, handoff: HandoffPlan },
    /// The kill chord fired; the engine is done, fatally.
    Kill,
    /// Enqueue `message` on `clients[idx]`; on failure report back via
    /// [`Engine::forward_failed`].
    Forward { idx: usize, message: Message },
    /// Inject the event into the local system.
    WriteLocal { event: Event },
}

/// What one inbound record amounts to.
#[derive(PartialEq, Eq, Debug)]
pub enum InboundDisposition {
    /// Install this text into the local clipboard (best effort).
    SetLocal { text: String },
    /// Enqueue `message` on `clients[idx]` (best effort; a failure here
    /// does not remove the client).
    Relay { idx: usize, message: Message },
    /// The record has no engine-level meaning.
    Ignore,
}

pub open spec fn notify_plan_spec(current: int, notify: NotifyPlan) -> bool {
    match notify {
        NotifyPlan::Local => current == 0,
        NotifyPlan::Client { idx, message } => current >= 1 && idx == current - 1 && match message {
            Message::Notify(s) => s@ == switch_notice(),
            _ => false,
        },
    }
}

pub open spec fn handoff_plan_spec(previous: int, current: int, handoff: HandoffPlan) -> bool {
    match handoff {
        HandoffPlan::Skip => previous == 0 && current == 0,
        HandoffPlan::PushLocal { idx } => previous == 0 && current >= 1 && idx == current - 1,
        HandoffPlan::PullRemote { idx, message } => previous >= 1 && idx == previous - 1 && message
            == Message::GetClipboardData,
    }
}

/// The transition one captured event makes: chord accounting on both
/// trackers, then either a switch, a kill, a forward to the active
/// client, or a local write — exactly one of the four.
pub open spec fn input_step_spec(pre: Engine, event: Event, post: Engine, d: InputDisposition) -> bool {
    let su = chords_after(pre.switch_chord@, event);
    let ku = chords_after(pre.kill_chord@, event);
    post.clients == pre.clients && match d {
        InputDisposition::Switched { previous, notify, handoff } => chord_complete(su) && previous
            == pre.current && post.current == next_target(
            pre.current as int,
            pre.clients@.len() as int,
        ) && post.switch_chord@ == chord_cleared(su) && post.kill_chord@ == ku && notify_plan_spec(
            post.current as int,
            notify,
        ) && handoff_plan_spec(pre.current as int, post.current as int, handoff),
        InputDisposition::Kill => !chord_complete(su) && chord_complete(ku) && post.current
            == pre.current && post.switch_chord@ == su && post.kill_chord@ == chord_cleared(ku),
        InputDisposition::Forward { idx, message } => !chord_complete(su) && !chord_complete(ku)
            && pre.current >= 1 && idx == pre.current - 1 && message == Message::Event(event)
            && post.current == pre.current && post.switch_chord@ == su && post.kill_chord@ == ku,
        InputDisposition::WriteLocal { event: ev } => !chord_complete(su) && !chord_complete(ku)
            && pre.current == 0 && ev == event && post.current == 0 && post.switch_chord@ == su
            && post.kill_chord@ == ku,
    }
}

/// The routing of one inbound record: clipboard text lands locally when
/// the local machine owns input and is relayed to the active client
/// otherwise; every other record is ignored.
pub open spec fn inbound_step_spec(e: Engine, message: Message, d: InboundDisposition) -> bool {
    match message {
        Message::SetClipboardData(text) => if e.current == 0 {
            d == (InboundDisposition::SetLocal { text })
        } else {
            d == (InboundDisposition::Relay {
                idx: (e.current - 1) as usize,
                message: Message::SetClipboardData(text),
            })
        },
        _ => d == InboundDisposition::Ignore,
    }
}

/// The engine's state: roster, active target, chord trackers.
pub struct Engine {
    pub clients: Vec<Client>,
    pub current: usize,
    pub switch_chord: ChordMap,
    pub kill_chord: ChordMap,
}

impl Engine {
    /// The target index always addresses the local machine or a roster
    /// entry, and both trackers are sound.
    pub open spec fn wf(self) -> bool {
        self.current <= self.clients@.len() && self.clients@.len() < usize::MAX
            && self.switch_chord.wf() && self.kill_chord.wf()
    }

    /// A fresh engine: no clients, input owned locally, every chord key
    /// unpressed.
    pub fn new(switch_keys: &Vec<KeyCode>, kill_keys: &Vec<KeyCode>) -> (e: Engine)
        ensures
            e.wf(),
            e.current == 0,
            e.clients@.len() == 0,
            e.switch_chord@ == Map::new(|k: KeyCode| switch_keys@.contains(k), |k: KeyCode| false),
            e.kill_chord@ == Map::new(|k: KeyCode| kill_keys@.contains(k), |k: KeyCode| false),
    {
        Engine {
            clients: Vec::new(),
            current: 0,
            switch_chord: ChordMap::new(switch_keys),
            kill_chord: ChordMap::new(kill_keys),
        }
    }

    /// Appends a freshly accepted client; the active target is unchanged.
    pub fn register_client(&mut self, client: Client)
        requires
            old(self).wf(),
            old(self).clients@.len() + 1 < usize::MAX,
        ensures
            final(self).wf(),
            final(self).clients@ == old(self).clients@.push(client),
            final(self).current == old(self).current,
            final(self).switch_chord == old(self).switch_chord,
            final(self).kill_chord == old(self).kill_chord,
    {
        self.clients.push(client);
    }

    /// Processes one captured input event.
    pub fn step_input_event(&mut self, event: Event) -> (d: InputDisposition)
        requires
            old(self).wf(),
        ensures
            final(self).wf(),
            input_step_spec(*old(self), event, *final(self), d),
    {
        if let Event::Key { direction, kind: KeyKind::Key(code) } = event {
            let down = direction == Direction::Down;
            self.switch_chord.record(code, down);
            self.kill_chord.record(code, down);
        }
        if self.switch_chord.complete() {
            self.switch_chord.reset();
            let previous = self.current;
            let n = self.clients.len();
            self.current = if previous == n {
                0
            } else {
                previous + 1
            };
            proof {
                if previous < n {
                    vstd::arithmetic::div_mod::lemma_small_mod((previous + 1) as nat, (n + 1) as nat);
                } else {
                    vstd::arithmetic::div_mod::lemma_mod_self_0((n + 1) as int);
                }
            }
            let notify = if self.current == 0 {
                NotifyPlan::Local
            } else {
                NotifyPlan::Client {
                    idx: self.current - 1,
                    message: Message::Notify(switch_notice_text()),
                }
            };
            let handoff = if previous == 0 {
                if self.current == 0 {
                    HandoffPlan::Skip
                } else {
                    HandoffPlan::PushLocal { idx: self.current - 1 }
                }
            } else {
                HandoffPlan::PullRemote { idx: previous - 1, message: Message::GetClipboardData }
            };
            InputDisposition::Switched { previous, notify, handoff }
        } else if self.kill_chord.complete() {
            self.kill_chord.reset();
            InputDisposition::Kill
        } else if self.current != 0 {
            InputDisposition::Forward { idx: self.current - 1, message: Message::Event(event) }
        } else {
            InputDisposition::WriteLocal { event }
        }
    }

    /// Reacts to the failure of a [`InputDisposition::Forward`] send: the
    /// active client is removed — the roster loses exactly that entry and
    /// every other entry is untouched — input comes home, and the event
    /// still has to reach a target, so it is written locally.
    pub fn forward_failed(&mut self, event: Event) -> (d: InputDisposition)
        requires
            old(self).wf(),
            old(self).current >= 1,
        ensures
            final(self).wf(),
            final(self).clients@ == old(self).clients@.remove(old(self).current - 1),
            final(self).clients@.len() == old(self).clients@.len() - 1,
            forall|j: int|
                0 <= j < old(self).current - 1 ==> final(self).clients@[j] == old(self).clients@[j],
            forall|j: int|
                old(self).current - 1 <= j < final(self).clients@.len()
                    ==> final(self).clients@[j] == old(self).clients@[j + 1],
            final(self).current == 0,
            final(self).switch_chord == old(self).switch_chord,
            final(self).kill_chord == old(self).kill_chord,
            d == (InputDisposition::WriteLocal { event }),
    {
        let idx = self.current - 1;
        self.clients.remove(idx);
        self.current = 0;
        InputDisposition::WriteLocal { event }
    }

    /// Routes one record read from a client.
    pub fn step_inbound(&self, message: Message) -> (d: InboundDisposition)
        requires
            self.wf(),
        ensures
            inbound_step_spec(*self, message, d),
    {
        match message {
            Message::SetClipboardData(text) => if self.current == 0 {
                InboundDisposition::SetLocal { text }
            } else {
                InboundDisposition::Relay {
                    idx: self.current - 1,
                    message: Message::SetClipboardData(text),
                }
            },
            _ => InboundDisposition::Ignore,
        }
    }
}

/// The notification text shown on the target a switch lands on.
pub fn switch_notice_text() -> (s: String)
    ensures
        s@ == switch_notice(),
{
    "I'm over here now!".to_owned()
}

/// The reason string of a kill-chord termination.
pub fn kill_reason_text() -> (s: String)
    ensures
        s@ == kill_reason(),
{
    "Kilt".to_owned()
}

/// Law: every captured event is consumed by chord detection, forwarded
/// to exactly one client, or written locally — never none of the three,
/// never two.  The disposition is a single variant, and which variant it
/// is follows the state of the chords and of the active target.
pub proof fn lemma_event_dispatch(pre: Engine, event: Event, post: Engine, d: InputDisposition)
    requires
        input_step_spec(pre, event, post, d),
    ensures
        (d is Switched) <==> chord_complete(chords_after(pre.switch_chord@, event)),
        (d is Kill) <==> (!chord_complete(chords_after(pre.switch_chord@, event))
            && chord_complete(chords_after(pre.kill_chord@, event))),
        (d is Forward) <==> (!chord_complete(chords_after(pre.switch_chord@, event))
            && !chord_complete(chords_after(pre.kill_chord@, event)) && pre.current >= 1),
        (d is WriteLocal) <==> (!chord_complete(chords_after(pre.switch_chord@, event))
            && !chord_complete(chords_after(pre.kill_chord@, event)) && pre.current == 0),
{
}

/// Law: clipboard handoff on a transition.  When a switch leaves the
/// local machine for a client, the plan pushes the local clipboard to
/// the new target; when it leaves a client, the plan asks exactly that
/// client for its clipboard — never both in reverse, never skipped
/// unless the transition stays local.
pub proof fn lemma_clipboard_handoff(
    pre: Engine,
    event: Event,
    post: Engine,
    previous: usize,
    notify: NotifyPlan,
    handoff: HandoffPlan,
)
    requires
        input_step_spec(pre, event, post, InputDisposition::Switched { previous, notify, handoff }),
    ensures
        previous == 0 && post.current != 0 ==> handoff == (HandoffPlan::PushLocal {
            idx: (post.current - 1) as usize,
        }),
        previous != 0 ==> handoff == (HandoffPlan::PullRemote {
            idx: (previous - 1) as usize,
            message: Message::GetClipboardData,
        }),
        previous == 0 && post.current == 0 ==> handoff == HandoffPlan::Skip,
{
}

/// Law: switching is a round trip.  From the local machine, with `n`
/// clients connected, `n + 1` consecutive switch fires visit every
/// client once and return input to the local machine.
pub proof fn lemma_round_trip_switch(n: int)
    requires
        n >= 0,
    ensures
        switched_times(0, n, (n + 1) as nat) == 0,
{
    lemma_switched_times_mod(0, n, (n + 1) as nat);
    vstd::arithmetic::div_mod::lemma_mod_self_0(n + 1);
}

/// Repeated switching lands on `(start + count) % (n + 1)`.
pub proof fn lemma_switched_times_mod(start: int, n: int, count: nat)
    requires
        n >= 0,
        0 <= start <= n,
    ensures
        switched_times(start, n, count) == (start + count) % (n + 1),
    decreases count,
{
    let m = n + 1;
    if count == 0 {
        vstd::arithmetic::div_mod::lemma_small_mod(start as nat, m as nat);
    } else {
        lemma_switched_times_mod(start, n, (count - 1) as nat);
        let prev = (start + count - 1) % m;
        vstd::arithmetic::div_mod::lemma_add_mod_noop(start + count - 1, 1, m);
        if m == 1 {
            vstd::arithmetic::div_mod::lemma_small_mod(0, 1);
            assert(switched_times(start, n, count) == (prev + 1) % m);
        } else {
            vstd::arithmetic::div_mod::lemma_small_mod(1, m as nat);
        }
    }
}

} // verus!
