//! The logical state of one controller: buttons, triggers and stick axes.

use vstd::prelude::*;

verus! {

/// Snapshot of one controller's inputs.
///
/// Immutable value type produced by application logic. The triggers are kept
/// as full-range signed bytes, matching the wire format one for one, even
/// though a physical trigger only reports a unidirectional press.
#[derive(Clone, Copy, PartialEq, Eq, Structural, Debug)]
pub struct GamepadState {
    pub dpad_up: bool,
    pub dpad_down: bool,
    pub dpad_left: bool,
    pub dpad_right: bool,
    pub btn_start: bool,
    pub btn_back: bool,
    pub btn_left_thumb: bool,
    pub btn_right_thumb: bool,
    pub btn_left_shoulder: bool,
    pub btn_right_shoulder: bool,
    pub btn_guide: bool,
    pub btn_a: bool,
    pub btn_b: bool,
    pub btn_x: bool,
    pub btn_y: bool,
    pub trigger_left: i8,
    pub trigger_right: i8,
    pub thumb_left_x: i16,
    pub thumb_left_y: i16,
    pub thumb_right_x: i16,
    pub thumb_right_y: i16,
}

impl GamepadState {
    /// The neutral snapshot: no button held, triggers released, sticks centred.
    pub open spec fn spec_neutral() -> GamepadState {
        GamepadState {
            dpad_up: false,
            dpad_down: false,
            dpad_left: false,
            dpad_right: false,
            btn_start: false,
            btn_back: false,
            btn_left_thumb: false,
            btn_right_thumb: false,
            btn_left_shoulder: false,
            btn_right_shoulder: false,
            btn_guide: false,
            btn_a: false,
            btn_b: false,
            btn_x: false,
            btn_y: false,
            trigger_left: 0,
            trigger_right: 0,
            thumb_left_x: 0,
            thumb_left_y: 0,
            thumb_right_x: 0,
            thumb_right_y: 0,
        }
    }

    /// Builds the neutral snapshot.
    pub fn neutral() -> (s: GamepadState)
        ensures
            s == GamepadState::spec_neutral(),
    {
        GamepadState {
            dpad_up: false,
            dpad_down: false,
            dpad_left: false,
            dpad_right: false,
            btn_start: false,
            btn_back: false,
            btn_left_thumb: false,
            btn_right_thumb: false,
            btn_left_shoulder: false,
            btn_right_shoulder: false,
            btn_guide: false,
            btn_a: false,
            btn_b: false,
            btn_x: false,
            btn_y: false,
            trigger_left: 0,
            trigger_right: 0,
            thumb_left_x: 0,
            thumb_left_y: 0,
            thumb_right_x: 0,
            thumb_right_y: 0,
        }
    }
}

impl Default for GamepadState {
    /// The default snapshot is the neutral one.
    fn default() -> (s: Self)
        ensures
            s == GamepadState::spec_neutral(),
    {
        GamepadState::neutral()
    }
}

} // verus!
