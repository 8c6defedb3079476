//! The per-slot connection/handshake state machine.
//!
//! The engine is a pure step function from a state and an event to the next
//! state and the action owed to the IN endpoint. The embedding performs the
//! action (writes the report, waits for the timer) and feeds the outcome back
//! as the next event; the engine itself never touches an endpoint, so every
//! transition is verified for every event order.

use vstd::prelude::*;
use crate::gamepad::GamepadState;

verus! {

/// How many presence reports are owed after an announce, before the slot
/// moves on to the connecting phase.
pub const ANNOUNCE_PRESENCE_COUNT: u8 = 2;

/// Connection state of one controller slot. Input reports are valid to send
/// only while `Connected`; presence reports only while not `Connected`.
#[derive(Clone, Copy, PartialEq, Eq, Structural, Debug)]
pub enum ConnState {
    Disconnected,
    Connecting,
    Connected,
}

/// An event the embedding feeds into the engine.
#[derive(Clone, Copy, PartialEq, Eq, Structural, Debug)]
pub enum Event {
    /// Announce a wireless controller as present (application-initiated).
    Announce,
    /// Periodic tick: the IN endpoint accepted the previous report and is
    /// ready for the next one.
    Tick,
    /// The host's poll/ack pattern completed the handshake.
    HandshakeAck,
    /// The IN endpoint stalled, a transfer failed for good, or a malformed
    /// host command arrived: the host no longer believes in this slot.
    Stall,
    /// Explicit request to drop the connection.
    DisconnectRequest,
}

/// What the engine owes the IN endpoint after a step.
#[derive(Clone, Copy, PartialEq, Eq, Structural, Debug)]
pub enum Action {
    /// Nothing to transmit this step.
    Idle,
    /// Transmit a presence/announcement report.
    SendPresence,
    /// Transmit the input report encoding this snapshot.
    SendInput(GamepadState),
}

/// The state machine for one controller slot.
///
/// `pending_presence` counts the announce-phase presence reports still owed
/// before the slot leaves `Disconnected`; it is zero in every other state.
#[derive(Clone, Copy, PartialEq, Eq, Structural, Debug)]
pub struct Engine {
    pub conn: ConnState,
    pub pending_presence: u8,
}

impl Engine {
    /// Well-formedness: announce-phase reports are only ever owed while
    /// disconnected, and never more than the announce count.
    pub open spec fn wf(self) -> bool {
        &&& self.pending_presence <= ANNOUNCE_PRESENCE_COUNT
        &&& self.pending_presence > 0 ==> self.conn is Disconnected
    }

    /// The state every slot starts in: disconnected, nothing owed.
    pub open spec fn spec_init() -> Engine {
        Engine { conn: ConnState::Disconnected, pending_presence: 0 }
    }

    /// One transition: the next engine state and the action owed, given the
    /// current state, the event, and the latest snapshot for this slot.
    pub open spec fn spec_step(self, ev: Event, snapshot: GamepadState) -> (Engine, Action) {
        match ev {
            Event::Announce => {
                if self.conn is Disconnected {
                    (Engine { conn: ConnState::Disconnected, pending_presence: ANNOUNCE_PRESENCE_COUNT },
                        Action::Idle)
                } else {
                    (self, Action::Idle)
                }
            },
            Event::Tick => {
                match self.conn {
                    ConnState::Disconnected => {
                        if self.pending_presence > 1 {
                            (Engine { conn: ConnState::Disconnected, pending_presence: (self.pending_presence - 1) as u8 },
                                Action::SendPresence)
                        } else if self.pending_presence == 1 {
                            (Engine { conn: ConnState::Connecting, pending_presence: 0 },
                                Action::SendPresence)
                        } else {
                            (self, Action::Idle)
                        }
                    },
                    ConnState::Connecting => (self, Action::SendPresence),
                    ConnState::Connected => (self, Action::SendInput(snapshot)),
                }
            },
            Event::HandshakeAck => {
                if self.conn is Connecting {
                    (Engine { conn: ConnState::Connected, pending_presence: 0 }, Action::Idle)
                } else {
                    (self, Action::Idle)
                }
            },
            Event::Stall => (Engine::spec_init(), Action::Idle),
            Event::DisconnectRequest => (Engine::spec_init(), Action::Idle),
        }
    }

    /// A fresh engine in the initial state.
    pub fn new() -> (e: Engine)
        ensures
            e == Engine::spec_init(),
            e.wf(),
    {
        Engine { conn: ConnState::Disconnected, pending_presence: 0 }
    }

    /// Feeds one event through the machine and returns the action owed.
    ///
    /// Safety clauses: an input report is produced only from `Connected`, and
    /// it carries exactly the snapshot handed in; a stall or disconnect lands
    /// back in the initial state within this one step.
    pub fn step(&mut self, ev: Event, snapshot: GamepadState) -> (a: Action)
        requires
            old(self).wf(),
        ensures
            (*final(self), a) == old(self).spec_step(ev, snapshot),
            final(self).wf(),
            a is SendInput ==> old(self).conn is Connected && a == Action::SendInput(snapshot),
            ev is Stall || ev is DisconnectRequest ==> *final(self) == Engine::spec_init(),
    {
        match ev {
            Event::Announce => {
                if matches!(self.conn, ConnState::Disconnected) {
                    self.pending_presence = ANNOUNCE_PRESENCE_COUNT;
                }
                Action::Idle
            },
            Event::Tick => {
                match self.conn {
                    ConnState::Disconnected => {
                        if self.pending_presence > 1 {
                            self.pending_presence = self.pending_presence - 1;
                            Action::SendPresence
                        } else if self.pending_presence == 1 {
                            self.pending_presence = 0;
                            self.conn = ConnState::Connecting;
                            Action::SendPresence
                        } else {
                            Action::Idle
                        }
                    },
                    ConnState::Connecting => Action::SendPresence,
                    ConnState::Connected => Action::SendInput(snapshot),
                }
            },
            Event::HandshakeAck => {
                if matches!(self.conn, ConnState::Connecting) {
                    self.conn = ConnState::Connected;
                }
                Action::Idle
            },
            Event::Stall => {
                self.conn = ConnState::Disconnected;
                self.pending_presence = 0;
                Action::Idle
            },
            Event::DisconnectRequest => {
                self.conn = ConnState::Disconnected;
                self.pending_presence = 0;
                Action::Idle
            },
        }
    }
}

/// The engine state after running a whole event sequence from `e`.
pub open spec fn spec_run(e: Engine, evs: Seq<Event>, snapshot: GamepadState) -> Engine
    decreases evs.len(),
{
    if evs.len() == 0 {
        e
    } else {
        spec_run(e.spec_step(evs[0], snapshot).0, evs.drop_first(), snapshot)
    }
}

/// The action emitted at position `i` of an event sequence run from `e`.
pub open spec fn spec_action_at(e: Engine, evs: Seq<Event>, snapshot: GamepadState, i: int) -> Action {
    spec_run(e, evs.take(i), snapshot).spec_step(evs[i], snapshot).1
}

/// Law — state machine safety: for every event sequence, an input report is
/// emitted at a step only if the slot is `Connected` when that step runs. No
/// write or handshake order can leak an input report earlier.
pub proof fn lemma_no_input_report_unless_connected(
    e: Engine, evs: Seq<Event>, snapshot: GamepadState, i: int,
)
    requires
        0 <= i < evs.len(),
    ensures
        spec_action_at(e, evs, snapshot, i) is SendInput
            ==> spec_run(e, evs.take(i), snapshot).conn is Connected,
{
}

/// Law — a stall silences the slot: the step consuming the stall emits no
/// input report and lands in the initial, disconnected state, so by the
/// safety law no further input report leaves before a full re-handshake.
pub proof fn lemma_stall_suppresses_input(e: Engine, snapshot: GamepadState)
    ensures
        e.spec_step(Event::Stall, snapshot).0 == Engine::spec_init(),
        !(e.spec_step(Event::Stall, snapshot).1 is SendInput),
{
}

} // verus!
