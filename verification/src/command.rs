//! Decoder for host-to-device commands arriving on the OUT endpoint, and the
//! cell that exposes the decoded values to the application.

use vstd::prelude::*;
use crate::device::NUM_SLOTS;

verus! {

/// Length in bytes of every command packet the host sends.
pub const COMMAND_LEN: usize = 12;

/// Command-type byte assigning an LED pattern.
pub const COMMAND_SET_LED: u8 = 0x00;

/// Command-type byte setting the rumble intensities.
pub const COMMAND_SET_RUMBLE: u8 = 0x01;

/// A decoded host command for one controller slot.
#[derive(Clone, Copy, PartialEq, Eq, Structural, Debug)]
pub enum HostCommand {
    /// Assign the LED pattern shown on the controller.
    SetLed { pattern: u8 },
    /// Set the two rumble motor intensities.
    SetRumble { left: u8, right: u8 },
}

/// The command packet layout: byte 0 addresses the slot, byte 1 selects the
/// command, bytes 2 and 3 carry its operands, the rest is padding. `None`
/// exactly when the length, the slot, or the command byte is out of range.
pub open spec fn spec_decode_command(bytes: Seq<u8>) -> Option<(u8, HostCommand)> {
    if bytes.len() != COMMAND_LEN {
        None
    } else if bytes[0] as int >= NUM_SLOTS {
        None
    } else if bytes[1] == COMMAND_SET_LED {
        Some((bytes[0], HostCommand::SetLed { pattern: bytes[2] }))
    } else if bytes[1] == COMMAND_SET_RUMBLE {
        Some((bytes[0], HostCommand::SetRumble { left: bytes[2], right: bytes[3] }))
    } else {
        None
    }
}

/// Decodes one command packet into the addressed slot and the command.
pub fn decode_command(bytes: &Vec<u8>) -> (r: Option<(u8, HostCommand)>)
    ensures
        r == spec_decode_command(bytes@),
{
    if bytes.len() != COMMAND_LEN {
        return None;
    }
    let slot: u8 = bytes[0];
    if slot as usize >= NUM_SLOTS {
        return None;
    }
    let kind: u8 = bytes[1];
    if kind == COMMAND_SET_LED {
        Some((slot, HostCommand::SetLed { pattern: bytes[2] }))
    } else if kind == COMMAND_SET_RUMBLE {
        Some((slot, HostCommand::SetRumble { left: bytes[2], right: bytes[3] }))
    } else {
        None
    }
}

/// Latest host commands for one slot: the mirror image of the input state
/// cell, with the host as sole writer and the application as reader.
#[derive(Clone, Copy, PartialEq, Eq, Structural, Debug)]
pub struct CommandCell {
    pub led_pattern: u8,
    pub rumble_left: u8,
    pub rumble_right: u8,
    pub fresh: bool,
}

impl CommandCell {
    /// A new cell: LED off, rumble idle, nothing fresh.
    pub fn new() -> (c: CommandCell)
        ensures
            c == (CommandCell { led_pattern: 0, rumble_left: 0, rumble_right: 0, fresh: false }),
    {
        CommandCell { led_pattern: 0, rumble_left: 0, rumble_right: 0, fresh: false }
    }

    /// The cell after applying one decoded command: the addressed values are
    /// replaced, the others kept, and the cell is marked fresh.
    pub open spec fn spec_after_apply(self, cmd: HostCommand) -> CommandCell {
        match cmd {
            HostCommand::SetLed { pattern } => CommandCell { led_pattern: pattern, fresh: true, ..self },
            HostCommand::SetRumble { left, right } => CommandCell {
                rumble_left: left,
                rumble_right: right,
                fresh: true,
                ..self
            },
        }
    }

    /// Applies one decoded command.
    pub fn apply(&mut self, cmd: HostCommand)
        ensures
            *final(self) == old(self).spec_after_apply(cmd),
    {
        match cmd {
            HostCommand::SetLed { pattern } => {
                self.led_pattern = pattern;
                self.fresh = true;
            },
            HostCommand::SetRumble { left, right } => {
                self.rumble_left = left;
                self.rumble_right = right;
                self.fresh = true;
            },
        }
    }

    /// Reads the latest commanded values and clears the freshness mark.
    pub fn read_latest(&mut self) -> (r: (u8, u8, u8))
        ensures
            r == (old(self).led_pattern, old(self).rumble_left, old(self).rumble_right),
            *final(self) == (CommandCell { fresh: false, ..*old(self) }),
    {
        self.fresh = false;
        (self.led_pattern, self.rumble_left, self.rumble_right)
    }
}

} // verus!
