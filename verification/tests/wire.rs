//! Tests for the wire formats: input reports, presence reports, descriptors,
//! identity rendering, and host-command decoding.

use xinput_receiver::command::{decode_command, HostCommand};
use xinput_receiver::descriptor::{
    build_config_descriptor, device_descriptor, receiver_config, string_descriptor,
};
use xinput_receiver::errors::{
    classify_transmit_error, report_fits, ConfigError, TransmitError, TransmitOutcome,
};
use xinput_receiver::gamepad::GamepadState;
use xinput_receiver::identity::{check_identity_consistency, DeviceIdentity};
use xinput_receiver::report::{decode_input_report, encode_input_report, presence_report};

fn neutral() -> GamepadState {
    GamepadState::neutral()
}

#[test]
fn round_trip_neutral() {
    let s = neutral();
    let bytes = encode_input_report(&s);
    assert_eq!(decode_input_report(&bytes), Some(s));
}

#[test]
fn round_trip_extremes() {
    let s = GamepadState {
        dpad_up: true,
        dpad_down: true,
        dpad_left: true,
        dpad_right: true,
        btn_start: true,
        btn_back: true,
        btn_left_thumb: true,
        btn_right_thumb: true,
        btn_left_shoulder: true,
        btn_right_shoulder: true,
        btn_guide: true,
        btn_a: true,
        btn_b: true,
        btn_x: true,
        btn_y: true,
        trigger_left: i8::MIN,
        trigger_right: i8::MAX,
        thumb_left_x: i16::MIN,
        thumb_left_y: i16::MAX,
        thumb_right_x: -1,
        thumb_right_y: 12345,
    };
    let bytes = encode_input_report(&s);
    assert_eq!(bytes.len(), 29);
    assert_eq!(decode_input_report(&bytes), Some(s));
}

#[test]
fn encode_exact_bytes() {
    let s = GamepadState {
        dpad_up: true,
        btn_a: true,
        trigger_left: 127,
        trigger_right: -1,
        thumb_left_x: 0x1234,
        thumb_left_y: -1,
        thumb_right_x: i16::MIN,
        thumb_right_y: i16::MAX,
        ..neutral()
    };
    let bytes = encode_input_report(&s);
    let expected: Vec<u8> = vec![
        0x00, 0x01, 0x00, 0xF0, 0x00, 0x13, // header
        0x01, 0x10, // buttons: dpad_up, A
        0x7F, 0xFF, // triggers
        0x34, 0x12, // left x
        0xFF, 0xFF, // left y
        0x00, 0x80, // right x
        0xFF, 0x7F, // right y
        0, 0, 0, 0, 0, 0, 0, 0, 0, 0, 0, // padding
    ];
    assert_eq!(bytes, expected);
}

#[test]
fn decode_rejects_bad_framing() {
    let s = neutral();
    let mut bytes = encode_input_report(&s);
    bytes.pop();
    assert_eq!(decode_input_report(&bytes), None);

    let mut wrong_header = encode_input_report(&s);
    wrong_header[3] = 0x00;
    assert_eq!(decode_input_report(&wrong_header), None);

    assert_eq!(decode_input_report(&Vec::new()), None);
}

#[test]
fn presence_report_is_not_an_input_report() {
    let p = presence_report();
    assert_eq!(p.len(), 29);
    assert_eq!(p[0], 0x08);
    assert_eq!(p[1], 0x80);
    assert!(p[2..].iter().all(|&b| b == 0));
    assert_eq!(decode_input_report(&p), None);
}

#[test]
fn identity_requires_seven_bytes() {
    assert!(DeviceIdentity::new(vec![0xFF; 7]).is_ok());
    assert_eq!(
        DeviceIdentity::new(vec![0xFF; 6]).unwrap_err(),
        ConfigError::BadIdentityLength
    );
    assert_eq!(
        DeviceIdentity::new(vec![0xFF; 8]).unwrap_err(),
        ConfigError::BadIdentityLength
    );
}

#[test]
fn serial_string_matches_identity() {
    let id = DeviceIdentity::new(vec![0xFF, 0xFF, 0xFF, 0xFF, 0x0A, 0x89, 0xB7]).unwrap();
    let serial = id.serial_string();
    assert_eq!(serial, b"FFFFFFFF".to_vec());
    assert!(check_identity_consistency(&serial, &id.handshake_payload()));

    let id2 = DeviceIdentity::new(vec![0x01, 0x2A, 0xB0, 0x9C, 0x00, 0x00, 0x00]).unwrap();
    let serial2 = id2.serial_string();
    assert_eq!(serial2, b"012AB09C".to_vec());
    assert!(check_identity_consistency(&serial2, &id2.handshake_payload()));

    // A serial from another identity must not pass the consistency check.
    assert!(!check_identity_consistency(&serial, &id2.handshake_payload()));
}

#[test]
fn handshake_payload_is_verbatim() {
    let raw = vec![0xFF, 0xFF, 0xFF, 0xFF, 0x0A, 0x89, 0xB7];
    let id = DeviceIdentity::new(raw.clone()).unwrap();
    assert_eq!(id.handshake_payload(), raw);
}

#[test]
fn device_descriptor_exact_bytes() {
    let cfg = receiver_config(1);
    let d = device_descriptor(&cfg);
    let expected: Vec<u8> = vec![
        0x12, 0x01, 0x00, 0x02, // 18 bytes, device, USB 2.00
        0xFF, 0xFF, 0xFF, 0x40, // vendor-specific class triple, 64-byte EP0
        0x5E, 0x04, // vendor 0x045E
        0x19, 0x07, // product 0x0719
        0x00, 0x01, // release 0x0100
        0x01, 0x02, 0x03, 0x01, // string indices, one configuration
    ];
    assert_eq!(d, expected);
}

#[test]
fn config_descriptor_layout_and_overflow() {
    let cfg = receiver_config(4);
    let d = build_config_descriptor(&cfg, 324).unwrap();
    assert_eq!(d.len(), 9 + 4 * 43);
    // wTotalLength, little endian
    assert_eq!(d[2] as usize + 256 * d[3] as usize, d.len());
    // four interfaces, configuration value 1, 260 mA in 2 mA units
    assert_eq!(d[4], 4);
    assert_eq!(d[5], 1);
    assert_eq!(d[8], 130);
    // first interface block starts right after the header
    assert_eq!(d[9], 0x09);
    assert_eq!(d[10], 0x04);
    assert_eq!(d[11], 0x00);

    assert_eq!(
        build_config_descriptor(&cfg, 64).unwrap_err(),
        ConfigError::DescriptorOverflow
    );
    // the exact boundary still fits
    assert!(build_config_descriptor(&cfg, 9 + 4 * 43).is_ok());
    assert!(build_config_descriptor(&cfg, 9 + 4 * 43 - 1).is_err());
}

#[test]
fn string_descriptor_of_empty_string() {
    let d = string_descriptor(&Vec::new()).unwrap();
    assert_eq!(d, vec![0x02, 0x03]);
}

#[test]
fn string_descriptor_layout() {
    let s = b"wii-usb".to_vec();
    let d = string_descriptor(&s).unwrap();
    assert_eq!(d.len(), 2 + 2 * s.len());
    assert_eq!(d[0] as usize, d.len());
    assert_eq!(d[1], 0x03);
    for (i, &c) in s.iter().enumerate() {
        assert_eq!(d[2 + 2 * i], c);
        assert_eq!(d[3 + 2 * i], 0);
    }
    assert_eq!(
        string_descriptor(&vec![b'x'; 127]).unwrap_err(),
        ConfigError::StringTooLong
    );
    assert!(string_descriptor(&vec![b'x'; 126]).is_ok());
}

#[test]
fn command_decoding() {
    let mut led = vec![0u8; 12];
    led[0] = 0;
    led[1] = 0x00;
    led[2] = 5;
    assert_eq!(
        decode_command(&led),
        Some((0, HostCommand::SetLed { pattern: 5 }))
    );

    let mut rumble = vec![0u8; 12];
    rumble[0] = 2;
    rumble[1] = 0x01;
    rumble[2] = 100;
    rumble[3] = 200;
    assert_eq!(
        decode_command(&rumble),
        Some((2, HostCommand::SetRumble { left: 100, right: 200 }))
    );

    assert_eq!(decode_command(&Vec::new()), None);
    assert_eq!(decode_command(&vec![0u8; 11]), None);
    assert_eq!(decode_command(&vec![0u8; 13]), None);

    let mut bad_slot = vec![0u8; 12];
    bad_slot[0] = 4;
    assert_eq!(decode_command(&bad_slot), None);

    let mut bad_kind = vec![0u8; 12];
    bad_kind[1] = 9;
    assert_eq!(decode_command(&bad_kind), None);
}

#[test]
fn transmit_error_taxonomy() {
    assert_eq!(
        classify_transmit_error(TransmitError::EndpointDisabled),
        TransmitOutcome::Retry
    );
    assert_eq!(
        classify_transmit_error(TransmitError::Stalled),
        TransmitOutcome::ConnectionLost
    );
    assert_eq!(
        classify_transmit_error(TransmitError::BufferTooLong),
        TransmitOutcome::Fatal
    );
    assert!(report_fits(29, 32));
    assert!(!report_fits(33, 32));
}
