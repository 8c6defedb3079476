//! Wire-format codec for the receiver's input and presence reports.
//!
//! An input report is a fixed 29-byte packet: a six-byte header (message
//! type, flag, and framing bytes including the payload-length marker), two
//! button bitfield bytes, two trigger bytes, four little-endian signed
//! 16-bit stick values, and zero padding. A presence report announces a
//! wireless controller to the host and carries no input payload.

use vstd::prelude::*;
use crate::engine::Action;
use crate::gamepad::GamepadState;

verus! {

/// Length in bytes of every report this device places on the IN endpoint.
pub const REPORT_LEN: usize = 29;

// --- packing eight flags into one byte, weights 1, 2, 4, ..., 128 ---

/// The byte encoding eight flags, flag `b0` at weight 1 up to `b7` at 128.
pub open spec fn spec_pack_bits(
    b0: bool, b1: bool, b2: bool, b3: bool, b4: bool, b5: bool, b6: bool, b7: bool,
) -> u8 {
    ((if b0 { 1int } else { 0int }) + (if b1 { 2int } else { 0int })
        + (if b2 { 4int } else { 0int }) + (if b3 { 8int } else { 0int })
        + (if b4 { 16int } else { 0int }) + (if b5 { 32int } else { 0int })
        + (if b6 { 64int } else { 0int }) + (if b7 { 128int } else { 0int })) as u8
}

/// The eight flags held in one byte, recovered greedily from the top weight down.
pub open spec fn spec_unpack_bits(b: u8) -> (bool, bool, bool, bool, bool, bool, bool, bool) {
    let r7: int = b as int;
    let b7 = r7 >= 128;
    let r6: int = r7 - (if b7 { 128int } else { 0int });
    let b6 = r6 >= 64;
    let r5: int = r6 - (if b6 { 64int } else { 0int });
    let b5 = r5 >= 32;
    let r4: int = r5 - (if b5 { 32int } else { 0int });
    let b4 = r4 >= 16;
    let r3: int = r4 - (if b4 { 16int } else { 0int });
    let b3 = r3 >= 8;
    let r2: int = r3 - (if b3 { 8int } else { 0int });
    let b2 = r2 >= 4;
    let r1: int = r2 - (if b2 { 4int } else { 0int });
    let b1 = r1 >= 2;
    let r0: int = r1 - (if b1 { 2int } else { 0int });
    let b0 = r0 >= 1;
    (b0, b1, b2, b3, b4, b5, b6, b7)
}

/// Law — packing eight flags into a byte loses none of them.
pub proof fn lemma_unpack_pack_bits(
    b0: bool, b1: bool, b2: bool, b3: bool, b4: bool, b5: bool, b6: bool, b7: bool,
)
    ensures
        spec_unpack_bits(spec_pack_bits(b0, b1, b2, b3, b4, b5, b6, b7))
            == (b0, b1, b2, b3, b4, b5, b6, b7),
{
}

/// Packs eight flags into one byte, flag `b0` at weight 1 up to `b7` at 128.
pub fn pack_bits(
    b0: bool, b1: bool, b2: bool, b3: bool, b4: bool, b5: bool, b6: bool, b7: bool,
) -> (r: u8)
    ensures
        r == spec_pack_bits(b0, b1, b2, b3, b4, b5, b6, b7),
{
    let mut r: u8 = 0;
    if b0 { r = r + 1; }
    if b1 { r = r + 2; }
    if b2 { r = r + 4; }
    if b3 { r = r + 8; }
    if b4 { r = r + 16; }
    if b5 { r = r + 32; }
    if b6 { r = r + 64; }
    if b7 { r = r + 128; }
    r
}

/// Recovers the eight flags held in one byte.
pub fn unpack_bits(b: u8) -> (r: (bool, bool, bool, bool, bool, bool, bool, bool))
    ensures
        r == spec_unpack_bits(b),
{
    let mut rest: u8 = b;
    let b7: bool = rest >= 128;
    if b7 { rest = rest - 128; }
    let b6: bool = rest >= 64;
    if b6 { rest = rest - 64; }
    let b5: bool = rest >= 32;
    if b5 { rest = rest - 32; }
    let b4: bool = rest >= 16;
    if b4 { rest = rest - 16; }
    let b3: bool = rest >= 8;
    if b3 { rest = rest - 8; }
    let b2: bool = rest >= 4;
    if b2 { rest = rest - 4; }
    let b1: bool = rest >= 2;
    if b1 { rest = rest - 2; }
    let b0: bool = rest >= 1;
    (b0, b1, b2, b3, b4, b5, b6, b7)
}

// --- triggers and stick axes ---

/// The wire byte for a signed trigger value: its two's-complement bit pattern.
pub open spec fn spec_trigger_byte(t: i8) -> u8 {
    (if t < 0 { t as int + 256 } else { t as int }) as u8
}

/// The trigger value a wire byte stands for.
pub open spec fn spec_byte_to_trigger(b: u8) -> i8 {
    (if b as int >= 128 { b as int - 256 } else { b as int }) as i8
}

/// The low wire byte of a signed 16-bit stick axis (little endian).
pub open spec fn spec_axis_lo(v: i16) -> u8 {
    ((if v < 0 { v as int + 0x10000 } else { v as int }) % 256) as u8
}

/// The high wire byte of a signed 16-bit stick axis (little endian).
pub open spec fn spec_axis_hi(v: i16) -> u8 {
    ((if v < 0 { v as int + 0x10000 } else { v as int }) / 256) as u8
}

/// The stick axis value a little-endian byte pair stands for.
pub open spec fn spec_bytes_to_axis(lo: u8, hi: u8) -> i16 {
    let u: int = lo as int + 256 * (hi as int);
    (if u >= 0x8000 { u - 0x10000 } else { u }) as i16
}

/// Law — a trigger value survives the trip through its wire byte.
pub proof fn lemma_trigger_roundtrip(t: i8)
    ensures
        spec_byte_to_trigger(spec_trigger_byte(t)) == t,
{
}

/// Law — a stick axis value survives the trip through its wire byte pair.
pub proof fn lemma_axis_roundtrip(v: i16)
    ensures
        spec_bytes_to_axis(spec_axis_lo(v), spec_axis_hi(v)) == v,
{
    let u: int = if v < 0 { v as int + 0x10000 } else { v as int };
    assert(u == 256 * (u / 256) + u % 256) by {
        vstd::arithmetic::div_mod::lemma_fundamental_div_mod(u, 256);
    }
}

/// Encodes a trigger value as its wire byte.
pub fn trigger_byte(t: i8) -> (b: u8)
    ensures
        b == spec_trigger_byte(t),
{
    let w: i32 = t as i32;
    let u: i32 = if w < 0 { w + 256 } else { w };
    u as u8
}

/// Decodes a wire byte back into a trigger value.
pub fn byte_to_trigger(b: u8) -> (t: i8)
    ensures
        t == spec_byte_to_trigger(b),
{
    let w: i32 = b as i32;
    let v: i32 = if w >= 128 { w - 256 } else { w };
    v as i8
}

/// Encodes a stick axis as its little-endian wire byte pair.
pub fn axis_bytes(v: i16) -> (r: (u8, u8))
    ensures
        r.0 == spec_axis_lo(v),
        r.1 == spec_axis_hi(v),
{
    let w: i32 = v as i32;
    let u: i32 = if w < 0 { w + 0x10000 } else { w };
    ((u % 256) as u8, (u / 256) as u8)
}

/// Decodes a little-endian wire byte pair back into a stick axis.
pub fn bytes_to_axis(lo: u8, hi: u8) -> (v: i16)
    ensures
        v == spec_bytes_to_axis(lo, hi),
{
    let u: i32 = lo as i32 + 256 * (hi as i32);
    let w: i32 = if u >= 0x8000 { u - 0x10000 } else { u };
    w as i16
}

// --- button bitfields ---

/// The low button byte: dpad, start, back and the two thumb clicks.
pub open spec fn spec_buttons_low(s: GamepadState) -> u8 {
    spec_pack_bits(
        s.dpad_up, s.dpad_down, s.dpad_left, s.dpad_right,
        s.btn_start, s.btn_back, s.btn_left_thumb, s.btn_right_thumb,
    )
}

/// The high button byte: shoulders, guide, and the four face buttons
/// (weight 8 is reserved and always clear).
pub open spec fn spec_buttons_high(s: GamepadState) -> u8 {
    spec_pack_bits(
        s.btn_left_shoulder, s.btn_right_shoulder, s.btn_guide, false,
        s.btn_a, s.btn_b, s.btn_x, s.btn_y,
    )
}

// --- whole reports ---

/// The bytes of the input report carrying snapshot `s`.
pub open spec fn spec_encode_input_report(s: GamepadState) -> Seq<u8> {
    seq![
        0x00u8, 0x01u8, 0x00u8, 0xF0u8, 0x00u8, 0x13u8,
        spec_buttons_low(s), spec_buttons_high(s),
        spec_trigger_byte(s.trigger_left), spec_trigger_byte(s.trigger_right),
        spec_axis_lo(s.thumb_left_x), spec_axis_hi(s.thumb_left_x),
        spec_axis_lo(s.thumb_left_y), spec_axis_hi(s.thumb_left_y),
        spec_axis_lo(s.thumb_right_x), spec_axis_hi(s.thumb_right_x),
        spec_axis_lo(s.thumb_right_y), spec_axis_hi(s.thumb_right_y),
        0u8, 0u8, 0u8, 0u8, 0u8, 0u8, 0u8, 0u8, 0u8, 0u8, 0u8,
    ]
}

/// Whether `bytes` opens with the input-report header.
pub open spec fn spec_input_report_header_ok(bytes: Seq<u8>) -> bool {
    &&& bytes.len() == REPORT_LEN
    &&& bytes[0] == 0x00u8
    &&& bytes[1] == 0x01u8
    &&& bytes[2] == 0x00u8
    &&& bytes[3] == 0xF0u8
    &&& bytes[4] == 0x00u8
    &&& bytes[5] == 0x13u8
}

/// The snapshot an input report carries, or `None` when the framing is not
/// an input report's.
pub open spec fn spec_decode_input_report(bytes: Seq<u8>) -> Option<GamepadState> {
    if !spec_input_report_header_ok(bytes) {
        None
    } else {
        let (du, dd, dl, dr, st, bk, ltm, rtm) = spec_unpack_bits(bytes[6]);
        let (ls, rs, gd, reserved, a, b, x, y) = spec_unpack_bits(bytes[7]);
        Some(GamepadState {
            dpad_up: du,
            dpad_down: dd,
            dpad_left: dl,
            dpad_right: dr,
            btn_start: st,
            btn_back: bk,
            btn_left_thumb: ltm,
            btn_right_thumb: rtm,
            btn_left_shoulder: ls,
            btn_right_shoulder: rs,
            btn_guide: gd,
            btn_a: a,
            btn_b: b,
            btn_x: x,
            btn_y: y,
            trigger_left: spec_byte_to_trigger(bytes[8]),
            trigger_right: spec_byte_to_trigger(bytes[9]),
            thumb_left_x: spec_bytes_to_axis(bytes[10], bytes[11]),
            thumb_left_y: spec_bytes_to_axis(bytes[12], bytes[13]),
            thumb_right_x: spec_bytes_to_axis(bytes[14], bytes[15]),
            thumb_right_y: spec_bytes_to_axis(bytes[16], bytes[17]),
        })
    }
}

/// The bytes of the presence report announcing a controller to the host.
pub open spec fn spec_presence_report() -> Seq<u8> {
    seq![
        0x08u8, 0x80u8, 0u8, 0u8, 0u8, 0u8, 0u8, 0u8, 0u8, 0u8,
        0u8, 0u8, 0u8, 0u8, 0u8, 0u8, 0u8, 0u8, 0u8, 0u8,
        0u8, 0u8, 0u8, 0u8, 0u8, 0u8, 0u8, 0u8, 0u8,
    ]
}

/// Encodes a snapshot into its input report. Total: every snapshot has
/// exactly one report, and encoding cannot fail.
pub fn encode_input_report(s: &GamepadState) -> (r: Vec<u8>)
    ensures
        r@ == spec_encode_input_report(*s),
        r@.len() == REPORT_LEN,
{
    let lo: u8 = pack_bits(
        s.dpad_up, s.dpad_down, s.dpad_left, s.dpad_right,
        s.btn_start, s.btn_back, s.btn_left_thumb, s.btn_right_thumb,
    );
    let hi: u8 = pack_bits(
        s.btn_left_shoulder, s.btn_right_shoulder, s.btn_guide, false,
        s.btn_a, s.btn_b, s.btn_x, s.btn_y,
    );
    let tl: u8 = trigger_byte(s.trigger_left);
    let tr: u8 = trigger_byte(s.trigger_right);
    let lx: (u8, u8) = axis_bytes(s.thumb_left_x);
    let ly: (u8, u8) = axis_bytes(s.thumb_left_y);
    let rx: (u8, u8) = axis_bytes(s.thumb_right_x);
    let ry: (u8, u8) = axis_bytes(s.thumb_right_y);
    let r: Vec<u8> = vec![
        0x00u8, 0x01u8, 0x00u8, 0xF0u8, 0x00u8, 0x13u8,
        lo, hi, tl, tr,
        lx.0, lx.1, ly.0, ly.1, rx.0, rx.1, ry.0, ry.1,
        0u8, 0u8, 0u8, 0u8, 0u8, 0u8, 0u8, 0u8, 0u8, 0u8, 0u8,
    ];
    proof {
        assert(r@ =~= spec_encode_input_report(*s));
    }
    r
}

/// Decodes an input report back into the snapshot it carries. Returns `None`
/// exactly when the framing is not an input report's (wrong length or header).
pub fn decode_input_report(bytes: &Vec<u8>) -> (r: Option<GamepadState>)
    ensures
        r == spec_decode_input_report(bytes@),
        spec_input_report_header_ok(bytes@) <==> r is Some,
{
    if bytes.len() != REPORT_LEN {
        return None;
    }
    if !(bytes[0] == 0x00u8 && bytes[1] == 0x01u8 && bytes[2] == 0x00u8
        && bytes[3] == 0xF0u8 && bytes[4] == 0x00u8 && bytes[5] == 0x13u8)
    {
        return None;
    }
    let (du, dd, dl, dr, st, bk, ltm, rtm) = unpack_bits(bytes[6]);
    let (ls, rs, gd, _reserved, a, b, x, y) = unpack_bits(bytes[7]);
    Some(GamepadState {
        dpad_up: du,
        dpad_down: dd,
        dpad_left: dl,
        dpad_right: dr,
        btn_start: st,
        btn_back: bk,
        btn_left_thumb: ltm,
        btn_right_thumb: rtm,
        btn_left_shoulder: ls,
        btn_right_shoulder: rs,
        btn_guide: gd,
        btn_a: a,
        btn_b: b,
        btn_x: x,
        btn_y: y,
        trigger_left: byte_to_trigger(bytes[8]),
        trigger_right: byte_to_trigger(bytes[9]),
        thumb_left_x: bytes_to_axis(bytes[10], bytes[11]),
        thumb_left_y: bytes_to_axis(bytes[12], bytes[13]),
        thumb_right_x: bytes_to_axis(bytes[14], bytes[15]),
        thumb_right_y: bytes_to_axis(bytes[16], bytes[17]),
    })
}

/// Builds the presence report.
pub fn presence_report() -> (r: Vec<u8>)
    ensures
        r@ == spec_presence_report(),
        r@.len() == REPORT_LEN,
{
    let r: Vec<u8> = vec![
        0x08u8, 0x80u8, 0u8, 0u8, 0u8, 0u8, 0u8, 0u8, 0u8, 0u8,
        0u8, 0u8, 0u8, 0u8, 0u8, 0u8, 0u8, 0u8, 0u8, 0u8,
        0u8, 0u8, 0u8, 0u8, 0u8, 0u8, 0u8, 0u8, 0u8,
    ];
    proof {
        assert(r@ =~= spec_presence_report());
    }
    r
}

/// The bytes owed to the IN endpoint for one engine action: a presence
/// report, the input report encoding the action's snapshot, or nothing.
pub fn action_report(a: &Action) -> (r: Option<Vec<u8>>)
    ensures
        match *a {
            Action::Idle => r is None,
            Action::SendPresence => r matches Some(v) && v@ == spec_presence_report(),
            Action::SendInput(s) => r matches Some(v) && v@ == spec_encode_input_report(s),
        },
        r matches Some(v) ==> v@.len() == REPORT_LEN,
{
    match a {
        Action::Idle => None,
        Action::SendPresence => Some(presence_report()),
        Action::SendInput(s) => Some(encode_input_report(s)),
    }
}

/// Law — the codec is lossless: decoding an encoded snapshot reproduces
/// every field exactly, for every snapshot.
pub proof fn lemma_input_report_roundtrip(s: GamepadState)
    ensures
        spec_decode_input_report(spec_encode_input_report(s)) == Some(s),
{
    let bytes = spec_encode_input_report(s);
    assert(spec_input_report_header_ok(bytes));
    lemma_unpack_pack_bits(
        s.dpad_up, s.dpad_down, s.dpad_left, s.dpad_right,
        s.btn_start, s.btn_back, s.btn_left_thumb, s.btn_right_thumb,
    );
    lemma_unpack_pack_bits(
        s.btn_left_shoulder, s.btn_right_shoulder, s.btn_guide, false,
        s.btn_a, s.btn_b, s.btn_x, s.btn_y,
    );
    lemma_trigger_roundtrip(s.trigger_left);
    lemma_trigger_roundtrip(s.trigger_right);
    lemma_axis_roundtrip(s.thumb_left_x);
    lemma_axis_roundtrip(s.thumb_left_y);
    lemma_axis_roundtrip(s.thumb_right_x);
    lemma_axis_roundtrip(s.thumb_right_y);
    assert(spec_decode_input_report(bytes) == Some(s));
}

/// Law — a presence report never passes for an input report: the two layouts
/// differ in their first byte, so the host can always tell them apart.
pub proof fn lemma_presence_not_input()
    ensures
        spec_decode_input_report(spec_presence_report()) is None,
{
    assert(spec_presence_report()[0] == 0x08u8);
}

} // verus!
