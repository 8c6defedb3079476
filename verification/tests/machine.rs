//! Tests for the state cell, the connection engine, and the whole receiver:
//! the cold-start, button-toggle and stall scenarios.

use xinput_receiver::cell::StateCell;
use xinput_receiver::command::HostCommand;
use xinput_receiver::device::{OutResult, Receiver};
use xinput_receiver::engine::{Action, ConnState, Engine, Event};
use xinput_receiver::gamepad::GamepadState;
use xinput_receiver::identity::DeviceIdentity;
use xinput_receiver::report::{action_report, encode_input_report, presence_report};

fn test_identity() -> DeviceIdentity {
    DeviceIdentity::new(vec![0xFF, 0xFF, 0xFF, 0xFF, 0x0A, 0x89, 0xB7]).unwrap()
}

fn pressed_a() -> GamepadState {
    GamepadState { btn_a: true, ..GamepadState::neutral() }
}

#[test]
fn cell_read_latest_is_idempotent() {
    let mut c = StateCell::new();
    c.write(pressed_a());
    let first = c.read_latest();
    let second = c.read_latest();
    assert_eq!(first, second);
}

#[test]
fn cell_write_then_read_is_fresh() {
    let mut c = StateCell::new();
    assert_eq!(c.read_latest(), GamepadState::neutral());
    let s = pressed_a();
    c.write(s);
    assert_eq!(c.read_latest(), s);
    // last-write-wins: an intermediate snapshot is lost
    c.write(pressed_a());
    c.write(GamepadState::neutral());
    assert_eq!(c.read_latest(), GamepadState::neutral());
}

#[test]
fn cold_start_scenario() {
    // Initializes disconnected; after the announce trigger, two presence
    // reports precede the move to Connecting; the handshake ack connects,
    // and IN traffic switches to the input-report layout.
    let mut e = Engine::new();
    assert_eq!(e.conn, ConnState::Disconnected);

    let snap = GamepadState::neutral();
    assert_eq!(e.step(Event::Announce, snap), Action::Idle);
    assert_eq!(e.conn, ConnState::Disconnected);

    assert_eq!(e.step(Event::Tick, snap), Action::SendPresence);
    assert_eq!(e.conn, ConnState::Disconnected);
    assert_eq!(e.step(Event::Tick, snap), Action::SendPresence);
    assert_eq!(e.conn, ConnState::Connecting);

    assert_eq!(e.step(Event::HandshakeAck, snap), Action::Idle);
    assert_eq!(e.conn, ConnState::Connected);

    match e.step(Event::Tick, snap) {
        Action::SendInput(s) => {
            let bytes = encode_input_report(&s);
            assert_eq!(bytes[0], 0x00); // input-report layout, not presence
            assert_eq!(bytes[1], 0x01);
        }
        other => panic!("expected an input report, got {:?}", other),
    }
}

#[test]
fn no_input_report_before_connected() {
    // Whatever mix of writes and handshake events arrives, no input report
    // leaves while the slot is not connected.
    let mut r = Receiver::new(test_identity());
    r.write(0, pressed_a());
    assert_eq!(r.step_slot(0, Event::Tick), Action::Idle);
    r.announce(0);
    r.write(0, GamepadState::neutral());
    assert_eq!(r.step_slot(0, Event::Tick), Action::SendPresence);
    r.write(0, pressed_a());
    assert_eq!(r.step_slot(0, Event::Tick), Action::SendPresence);
    // now Connecting: still presence only
    assert_eq!(r.step_slot(0, Event::Tick), Action::SendPresence);
    r.step_slot(0, Event::HandshakeAck);
    // only now may input flow
    assert_eq!(r.step_slot(0, Event::Tick), Action::SendInput(pressed_a()));
}

#[test]
fn button_toggle_scenario() {
    // Two writes one tick apart yield two input reports differing only in
    // the A-button bit.
    let mut r = Receiver::new(test_identity());
    r.announce(0);
    r.step_slot(0, Event::Tick);
    r.step_slot(0, Event::Tick);
    r.step_slot(0, Event::HandshakeAck);

    r.write(0, GamepadState { btn_a: false, ..GamepadState::neutral() });
    let first = match r.step_slot(0, Event::Tick) {
        Action::SendInput(s) => encode_input_report(&s),
        other => panic!("expected an input report, got {:?}", other),
    };
    r.write(0, GamepadState { btn_a: true, ..GamepadState::neutral() });
    let second = match r.step_slot(0, Event::Tick) {
        Action::SendInput(s) => encode_input_report(&s),
        other => panic!("expected an input report, got {:?}", other),
    };
    assert_eq!(first.len(), second.len());
    for i in 0..first.len() {
        if i == 7 {
            assert_eq!(first[i], 0x00);
            assert_eq!(second[i], 0x10); // the A-button bit
        } else {
            assert_eq!(first[i], second[i], "byte {} differs", i);
        }
    }
}

#[test]
fn stall_scenario() {
    // A stall while connected silences the slot within one tick; input
    // resumes only after a full re-handshake.
    let mut r = Receiver::new(test_identity());
    r.announce(0);
    r.step_slot(0, Event::Tick);
    r.step_slot(0, Event::Tick);
    r.step_slot(0, Event::HandshakeAck);
    r.write(0, pressed_a());
    assert!(matches!(r.step_slot(0, Event::Tick), Action::SendInput(_)));

    assert_eq!(r.step_slot(0, Event::Stall), Action::Idle);
    assert_eq!(r.step_slot(0, Event::Tick), Action::Idle);
    assert_eq!(r.step_slot(0, Event::Tick), Action::Idle);

    // re-handshake brings input back
    r.announce(0);
    assert_eq!(r.step_slot(0, Event::Tick), Action::SendPresence);
    assert_eq!(r.step_slot(0, Event::Tick), Action::SendPresence);
    r.step_slot(0, Event::HandshakeAck);
    assert_eq!(r.step_slot(0, Event::Tick), Action::SendInput(pressed_a()));
}

#[test]
fn disconnect_request_resets_slot() {
    let mut r = Receiver::new(test_identity());
    r.announce(1);
    r.step_slot(1, Event::Tick);
    r.step_slot(1, Event::Tick);
    r.step_slot(1, Event::HandshakeAck);
    assert!(matches!(r.step_slot(1, Event::Tick), Action::SendInput(_)));
    r.step_slot(1, Event::DisconnectRequest);
    assert_eq!(r.step_slot(1, Event::Tick), Action::Idle);
}

#[test]
fn slots_are_independent() {
    let mut r = Receiver::new(test_identity());
    r.announce(2);
    r.step_slot(2, Event::Tick);
    r.step_slot(2, Event::Tick);
    r.step_slot(2, Event::HandshakeAck);
    r.write(2, pressed_a());
    // slot 2 is connected; the others stay silent
    assert!(matches!(r.step_slot(2, Event::Tick), Action::SendInput(_)));
    assert_eq!(r.step_slot(0, Event::Tick), Action::Idle);
    assert_eq!(r.step_slot(1, Event::Tick), Action::Idle);
    assert_eq!(r.step_slot(3, Event::Tick), Action::Idle);
}

#[test]
fn out_commands_reach_their_slot() {
    let mut r = Receiver::new(test_identity());

    let mut led = vec![0u8; 12];
    led[0] = 1;
    led[1] = 0x00;
    led[2] = 6;
    assert_eq!(
        r.handle_out(&led),
        OutResult::Applied(1, HostCommand::SetLed { pattern: 6 })
    );
    assert_eq!(r.read_commands(1), (6, 0, 0));
    assert_eq!(r.read_commands(0), (0, 0, 0));

    let mut rumble = vec![0u8; 12];
    rumble[0] = 1;
    rumble[1] = 0x01;
    rumble[2] = 40;
    rumble[3] = 80;
    assert_eq!(
        r.handle_out(&rumble),
        OutResult::Applied(1, HostCommand::SetRumble { left: 40, right: 80 })
    );
    assert_eq!(r.read_commands(1), (6, 40, 80));
}

#[test]
fn malformed_out_command_drops_the_slot() {
    let mut r = Receiver::new(test_identity());
    r.announce(3);
    r.step_slot(3, Event::Tick);
    r.step_slot(3, Event::Tick);
    r.step_slot(3, Event::HandshakeAck);
    assert!(matches!(r.step_slot(3, Event::Tick), Action::SendInput(_)));

    // valid slot byte, malformed command byte: connection-loss for slot 3
    let mut bad = vec![0u8; 12];
    bad[0] = 3;
    bad[1] = 0x77;
    assert_eq!(r.handle_out(&bad), OutResult::FaultySlot(3));
    assert_eq!(r.step_slot(3, Event::Tick), Action::Idle);

    // unattributable garbage changes nothing
    assert_eq!(r.handle_out(&vec![9u8; 3]), OutResult::Ignored);
}

#[test]
fn action_report_maps_actions_to_bytes() {
    assert_eq!(action_report(&Action::Idle), None);
    assert_eq!(action_report(&Action::SendPresence), Some(presence_report()));
    let s = pressed_a();
    assert_eq!(
        action_report(&Action::SendInput(s)),
        Some(encode_input_report(&s))
    );
}

#[test]
fn identity_response_returns_configured_bytes() {
    let r = Receiver::new(test_identity());
    assert_eq!(
        r.identity_response(),
        vec![0xFF, 0xFF, 0xFF, 0xFF, 0x0A, 0x89, 0xB7]
    );
}
