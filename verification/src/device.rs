//! The receiver: four independent controller slots multiplexed onto one
//! composite USB device.
//!
//! Each slot owns its state cell, its connection engine and its command
//! cell; the slots share nothing but the device identity, so every slot
//! behaves as an independent state machine over one transport.

use vstd::prelude::*;
use crate::cell::StateCell;
use crate::command::{CommandCell, HostCommand, spec_decode_command};
use crate::engine::{Action, Engine, Event};
use crate::gamepad::GamepadState;
use crate::identity::DeviceIdentity;

verus! {

/// The fixed number of controller slots one receiver multiplexes.
pub const NUM_SLOTS: usize = 4;

/// One controller slot: its latest snapshot, its connection engine, and the
/// latest host commands addressed to it.
#[derive(Clone, Copy, PartialEq, Eq, Structural, Debug)]
pub struct Slot {
    pub cell: StateCell,
    pub engine: Engine,
    pub commands: CommandCell,
}

impl Slot {
    /// Well-formedness of one slot: its engine is well formed.
    pub open spec fn wf(self) -> bool {
        self.engine.wf()
    }

    /// A fresh slot: neutral snapshot, disconnected engine, idle commands.
    pub fn new() -> (s: Slot)
        ensures
            s.wf(),
            s.engine == Engine::spec_init(),
            s.cell.spec_state() == GamepadState::spec_neutral(),
            !s.cell.spec_fresh(),
    {
        Slot { cell: StateCell::new(), engine: Engine::new(), commands: CommandCell::new() }
    }
}

/// What became of one packet handed to [`Receiver::handle_out`].
#[derive(Clone, Copy, PartialEq, Eq, Structural, Debug)]
pub enum OutResult {
    /// The packet decoded; the command now sits in the slot's command cell.
    Applied(usize, HostCommand),
    /// The packet addressed a valid slot but its command byte is malformed:
    /// that slot was driven back to `Disconnected`.
    FaultySlot(usize),
    /// The packet cannot be attributed to any slot; nothing changed.
    Ignored,
}

/// The receiver: one device identity and [`NUM_SLOTS`] independent slots.
pub struct Receiver {
    pub identity: DeviceIdentity,
    pub slot0: Slot,
    pub slot1: Slot,
    pub slot2: Slot,
    pub slot3: Slot,
}

impl Receiver {
    /// The slots in slot-number order.
    pub open spec fn spec_slots(self) -> Seq<Slot> {
        seq![self.slot0, self.slot1, self.slot2, self.slot3]
    }

    /// Well-formedness: the identity and every slot are well formed.
    pub open spec fn wf(self) -> bool {
        &&& self.identity.wf()
        &&& forall|i: int| 0 <= i < NUM_SLOTS ==> (#[trigger] self.spec_slots()[i]).wf()
    }

    /// A new receiver: every slot disconnected and neutral.
    pub fn new(identity: DeviceIdentity) -> (r: Receiver)
        requires
            identity.wf(),
        ensures
            r.wf(),
            r.identity == identity,
            forall|i: int| 0 <= i < NUM_SLOTS ==> {
                &&& (#[trigger] r.spec_slots()[i]).engine == Engine::spec_init()
                &&& r.spec_slots()[i].cell.spec_state() == GamepadState::spec_neutral()
            },
    {
        Receiver {
            identity,
            slot0: Slot::new(),
            slot1: Slot::new(),
            slot2: Slot::new(),
            slot3: Slot::new(),
        }
    }

    /// Writes a snapshot into one slot's state cell. This is the only input
    /// surface application code uses: it never blocks and never fails, and
    /// the previous snapshot of that slot is discarded (last-write-wins).
    pub fn write(&mut self, slot: usize, s: GamepadState)
        requires
            old(self).wf(),
            slot < NUM_SLOTS,
        ensures
            final(self).wf(),
            final(self).spec_slots()[slot as int].cell
                == old(self).spec_slots()[slot as int].cell.spec_after_write(s),
            final(self).spec_slots()[slot as int].engine
                == old(self).spec_slots()[slot as int].engine,
            final(self).spec_slots()[slot as int].commands
                == old(self).spec_slots()[slot as int].commands,
            forall|j: int| 0 <= j < NUM_SLOTS && j != slot
                ==> #[trigger] final(self).spec_slots()[j] == old(self).spec_slots()[j],
            final(self).identity == old(self).identity,
    {
        if slot == 0 {
            self.slot0.cell.write(s);
        } else if slot == 1 {
            self.slot1.cell.write(s);
        } else if slot == 2 {
            self.slot2.cell.write(s);
        } else {
            self.slot3.cell.write(s);
        }
    }

    /// Announces a wireless controller as present on one slot: from
    /// `Disconnected`, the slot starts owing its presence reports.
    pub fn announce(&mut self, slot: usize)
        requires
            old(self).wf(),
            slot < NUM_SLOTS,
        ensures
            final(self).wf(),
            ({
                let stepped = old(self).spec_slots()[slot as int].engine
                    .spec_step(Event::Announce, old(self).spec_slots()[slot as int].cell.spec_state());
                final(self).spec_slots()[slot as int].engine == stepped.0
            }),
            final(self).spec_slots()[slot as int].cell
                == old(self).spec_slots()[slot as int].cell,
            final(self).spec_slots()[slot as int].commands
                == old(self).spec_slots()[slot as int].commands,
            forall|j: int| 0 <= j < NUM_SLOTS && j != slot
                ==> #[trigger] final(self).spec_slots()[j] == old(self).spec_slots()[j],
            final(self).identity == old(self).identity,
    {
        if slot == 0 {
            let snap = self.slot0.cell.peek();
            self.slot0.engine.step(Event::Announce, snap);
        } else if slot == 1 {
            let snap = self.slot1.cell.peek();
            self.slot1.engine.step(Event::Announce, snap);
        } else if slot == 2 {
            let snap = self.slot2.cell.peek();
            self.slot2.engine.step(Event::Announce, snap);
        } else {
            let snap = self.slot3.cell.peek();
            self.slot3.engine.step(Event::Announce, snap);
        }
    }

    /// Feeds one event into one slot's engine, handing it the latest
    /// snapshot, and returns the action owed to the IN endpoint. The read
    /// clears the slot's freshness mark; the snapshot itself stays put.
    pub fn step_slot(&mut self, slot: usize, ev: Event) -> (a: Action)
        requires
            old(self).wf(),
            slot < NUM_SLOTS,
        ensures
            final(self).wf(),
            ({
                let before = old(self).spec_slots()[slot as int];
                let after = final(self).spec_slots()[slot as int];
                let stepped = before.engine.spec_step(ev, before.cell.spec_state());
                &&& after.engine == stepped.0
                &&& a == stepped.1
                &&& after.cell == before.cell.spec_after_read()
                &&& after.commands == before.commands
            }),
            a is SendInput ==> old(self).spec_slots()[slot as int].engine.conn is Connected,
            forall|j: int| 0 <= j < NUM_SLOTS && j != slot
                ==> #[trigger] final(self).spec_slots()[j] == old(self).spec_slots()[j],
            final(self).identity == old(self).identity,
    {
        if slot == 0 {
            let snap = self.slot0.cell.read_latest();
            self.slot0.engine.step(ev, snap)
        } else if slot == 1 {
            let snap = self.slot1.cell.read_latest();
            self.slot1.engine.step(ev, snap)
        } else if slot == 2 {
            let snap = self.slot2.cell.read_latest();
            self.slot2.engine.step(ev, snap)
        } else {
            let snap = self.slot3.cell.read_latest();
            self.slot3.engine.step(ev, snap)
        }
    }

    /// Handles one packet from the OUT endpoint. A well-formed packet lands
    /// in the addressed slot's command cell; a packet that addresses a valid
    /// slot but carries a malformed command drives that slot back to
    /// `Disconnected` (a connection-loss error, not a fatal one); anything
    /// else is ignored.
    pub fn handle_out(&mut self, data: &Vec<u8>) -> (r: OutResult)
        requires
            old(self).wf(),
        ensures
            final(self).wf(),
            final(self).identity == old(self).identity,
            ({
                let decoded = spec_decode_command(data@);
                match r {
                    OutResult::Applied(slot, cmd) => {
                        &&& decoded == Some((slot as u8, cmd))
                        &&& final(self).spec_slots()[slot as int].commands
                            == old(self).spec_slots()[slot as int].commands.spec_after_apply(cmd)
                        &&& final(self).spec_slots()[slot as int].cell
                            == old(self).spec_slots()[slot as int].cell
                        &&& final(self).spec_slots()[slot as int].engine
                            == old(self).spec_slots()[slot as int].engine
                        &&& forall|j: int| 0 <= j < NUM_SLOTS && j != slot
                            ==> #[trigger] final(self).spec_slots()[j] == old(self).spec_slots()[j]
                    },
                    OutResult::FaultySlot(slot) => {
                        &&& decoded is None
                        &&& slot < NUM_SLOTS
                        &&& data@.len() == crate::command::COMMAND_LEN
                        &&& data@[0] == slot as u8
                        &&& final(self).spec_slots()[slot as int].engine == Engine::spec_init()
                        &&& final(self).spec_slots()[slot as int].cell
                            == old(self).spec_slots()[slot as int].cell
                        &&& final(self).spec_slots()[slot as int].commands
                            == old(self).spec_slots()[slot as int].commands
                        &&& forall|j: int| 0 <= j < NUM_SLOTS && j != slot
                            ==> #[trigger] final(self).spec_slots()[j] == old(self).spec_slots()[j]
                    },
                    OutResult::Ignored => {
                        &&& decoded is None
                        &&& *final(self) == *old(self)
                    },
                }
            }),
    {
        match crate::command::decode_command(data) {
            Some((slot, cmd)) => {
                if slot == 0 {
                    self.slot0.commands.apply(cmd);
                } else if slot == 1 {
                    self.slot1.commands.apply(cmd);
                } else if slot == 2 {
                    self.slot2.commands.apply(cmd);
                } else {
                    self.slot3.commands.apply(cmd);
                }
                OutResult::Applied(slot as usize, cmd)
            },
            None => {
                if data.len() == crate::command::COMMAND_LEN && (data[0] as usize) < NUM_SLOTS {
                    let slot: usize = data[0] as usize;
                    if slot == 0 {
                        self.slot0.engine = Engine::new();
                    } else if slot == 1 {
                        self.slot1.engine = Engine::new();
                    } else if slot == 2 {
                        self.slot2.engine = Engine::new();
                    } else {
                        self.slot3.engine = Engine::new();
                    }
                    OutResult::FaultySlot(slot)
                } else {
                    OutResult::Ignored
                }
            },
        }
    }

    /// Answers the control request for the handshake identity: the
    /// configured seven identity bytes, verbatim.
    pub fn identity_response(&self) -> (r: Vec<u8>)
        requires
            self.wf(),
        ensures
            r@ == self.identity.spec_bytes(),
            r@.len() == crate::identity::IDENTITY_LEN,
    {
        self.identity.handshake_payload()
    }

    /// Reads the latest host commands for one slot, clearing their mark.
    pub fn read_commands(&mut self, slot: usize) -> (r: (u8, u8, u8))
        requires
            old(self).wf(),
            slot < NUM_SLOTS,
        ensures
            final(self).wf(),
            ({
                let before = old(self).spec_slots()[slot as int].commands;
                &&& r == (before.led_pattern, before.rumble_left, before.rumble_right)
                &&& final(self).spec_slots()[slot as int].commands
                    == (CommandCell { fresh: false, ..before })
            }),
            final(self).spec_slots()[slot as int].cell == old(self).spec_slots()[slot as int].cell,
            final(self).spec_slots()[slot as int].engine == old(self).spec_slots()[slot as int].engine,
            forall|j: int| 0 <= j < NUM_SLOTS && j != slot
                ==> #[trigger] final(self).spec_slots()[j] == old(self).spec_slots()[j],
            final(self).identity == old(self).identity,
    {
        if slot == 0 {
            self.slot0.commands.read_latest()
        } else if slot == 1 {
            self.slot1.commands.read_latest()
        } else if slot == 2 {
            self.slot2.commands.read_latest()
        } else {
            self.slot3.commands.read_latest()
        }
    }
}

} // verus!
