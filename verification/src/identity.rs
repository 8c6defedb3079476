//! The device identity: seven raw bytes used both in the pairing handshake
//! payload and, hex-rendered, in the USB serial-number string.

use vstd::prelude::*;
use crate::errors::ConfigError;

verus! {

/// Length in bytes of the handshake identity payload.
pub const IDENTITY_LEN: usize = 7;

/// How many leading identity bytes the serial-number string must agree with.
pub const IDENTITY_SERIAL_BYTES: usize = 4;

/// The ASCII digit for the value `n` in upper-case hexadecimal.
pub open spec fn spec_hex_digit(n: u8) -> u8
    recommends
        n < 16,
{
    if n < 10 { (0x30 + n) as u8 } else { (0x41 + n - 10) as u8 }
}

/// The upper-case hexadecimal rendering of a byte sequence, two ASCII
/// characters per byte, high nibble first.
pub open spec fn spec_hex_bytes(bytes: Seq<u8>) -> Seq<u8> {
    Seq::new(bytes.len() * 2, |i: int|
        if i % 2 == 0 {
            spec_hex_digit(bytes[i / 2] / 16)
        } else {
            spec_hex_digit(bytes[i / 2] % 16)
        })
}

/// Whether an ASCII serial string agrees with a handshake identity: its
/// first eight characters spell the identity's first four bytes in
/// upper-case hexadecimal.
pub open spec fn spec_serial_matches_identity(serial: Seq<u8>, identity: Seq<u8>) -> bool {
    &&& serial.len() >= 2 * IDENTITY_SERIAL_BYTES
    &&& identity.len() >= IDENTITY_SERIAL_BYTES
    &&& forall|i: int| 0 <= i < IDENTITY_SERIAL_BYTES ==> {
        &&& #[trigger] serial[2 * i] == spec_hex_digit(identity[i] / 16)
        &&& serial[2 * i + 1] == spec_hex_digit(identity[i] % 16)
    }
}

/// The fixed seven-byte identity of one receiver. The first four bytes are
/// the host-visible half, echoed by the serial-number string; the remaining
/// three are receiver-specific.
#[derive(Debug)]
pub struct DeviceIdentity {
    bytes: Vec<u8>,
}

impl DeviceIdentity {
    /// The identity bytes, as specifications see them.
    pub closed spec fn spec_bytes(self) -> Seq<u8> {
        self.bytes@
    }

    /// Well-formedness: exactly seven bytes.
    pub open spec fn wf(self) -> bool {
        self.spec_bytes().len() == IDENTITY_LEN
    }

    /// Builds an identity from its raw bytes. Fails exactly when the length
    /// is not seven: undersized or oversized identities cannot enumerate
    /// meaningfully, so they are rejected at construction.
    pub fn new(bytes: Vec<u8>) -> (r: Result<DeviceIdentity, ConfigError>)
        ensures
            bytes@.len() == IDENTITY_LEN <==> r is Ok,
            r matches Ok(id) ==> id.spec_bytes() == bytes@ && id.wf(),
            r matches Err(e) ==> e == ConfigError::BadIdentityLength,
    {
        if bytes.len() == IDENTITY_LEN {
            Ok(DeviceIdentity { bytes })
        } else {
            Err(ConfigError::BadIdentityLength)
        }
    }

    /// The handshake payload: the seven identity bytes, verbatim.
    pub fn handshake_payload(&self) -> (r: Vec<u8>)
        requires
            self.wf(),
        ensures
            r@ == self.spec_bytes(),
            r@.len() == IDENTITY_LEN,
    {
        let mut r: Vec<u8> = Vec::new();
        let mut i: usize = 0;
        while i < self.bytes.len()
            invariant
                i <= self.bytes@.len(),
                r@ == self.bytes@.take(i as int),
            decreases self.bytes@.len() - i,
        {
            r.push(self.bytes[i]);
            i = i + 1;
        }
        proof {
            assert(r@ =~= self.spec_bytes());
        }
        r
    }

    /// The ASCII serial-number string derived from this identity: the first
    /// four identity bytes in upper-case hexadecimal, eight characters.
    pub fn serial_string(&self) -> (r: Vec<u8>)
        requires
            self.wf(),
        ensures
            r@ == spec_hex_bytes(self.spec_bytes().take(IDENTITY_SERIAL_BYTES as int)),
            r@.len() == 2 * IDENTITY_SERIAL_BYTES,
            spec_serial_matches_identity(r@, self.spec_bytes()),
    {
        let mut r: Vec<u8> = Vec::new();
        let mut i: usize = 0;
        while i < IDENTITY_SERIAL_BYTES
            invariant
                i <= IDENTITY_SERIAL_BYTES,
                self.wf(),
                r@.len() == 2 * i,
                forall|j: int| 0 <= j < 2 * i ==> #[trigger] r@[j]
                    == spec_hex_bytes(self.spec_bytes().take(IDENTITY_SERIAL_BYTES as int))[j],
            decreases IDENTITY_SERIAL_BYTES - i,
        {
            let b: u8 = self.bytes[i];
            r.push(hex_digit(b / 16));
            r.push(hex_digit(b % 16));
            i = i + 1;
        }
        proof {
            assert(r@ =~= spec_hex_bytes(self.spec_bytes().take(IDENTITY_SERIAL_BYTES as int)));
            lemma_hex_serial_matches(self.spec_bytes());
        }
        r
    }
}

/// Renders one nibble as its upper-case hexadecimal ASCII digit.
pub fn hex_digit(n: u8) -> (r: u8)
    requires
        n < 16,
    ensures
        r == spec_hex_digit(n),
{
    if n < 10 { 0x30 + n } else { 0x41 + (n - 10) }
}

/// Law — identity consistency: for every identity of at least four bytes,
/// the serial string derived by hex-rendering its first four bytes agrees
/// with the identity, character by character.
pub proof fn lemma_hex_serial_matches(identity: Seq<u8>)
    requires
        identity.len() >= IDENTITY_SERIAL_BYTES,
    ensures
        spec_serial_matches_identity(
            spec_hex_bytes(identity.take(IDENTITY_SERIAL_BYTES as int)),
            identity,
        ),
{
    let serial = spec_hex_bytes(identity.take(IDENTITY_SERIAL_BYTES as int));
    assert forall|i: int| 0 <= i < IDENTITY_SERIAL_BYTES implies {
        &&& #[trigger] serial[2 * i] == spec_hex_digit(identity[i] / 16)
        &&& serial[2 * i + 1] == spec_hex_digit(identity[i] % 16)
    } by {
        assert((2 * i) % 2 == 0);
        assert((2 * i + 1) % 2 == 1);
        assert((2 * i) / 2 == i);
        assert((2 * i + 1) / 2 == i);
    }
}

/// Checks a serial string against an identity: true exactly when the string's
/// first eight characters spell the identity's first four bytes in upper-case
/// hexadecimal.
pub fn check_identity_consistency(serial: &Vec<u8>, identity: &Vec<u8>) -> (r: bool)
    ensures
        r == spec_serial_matches_identity(serial@, identity@),
{
    if serial.len() < 2 * IDENTITY_SERIAL_BYTES || identity.len() < IDENTITY_SERIAL_BYTES {
        return false;
    }
    let mut i: usize = 0;
    while i < IDENTITY_SERIAL_BYTES
        invariant
            i <= IDENTITY_SERIAL_BYTES,
            serial@.len() >= 2 * IDENTITY_SERIAL_BYTES,
            identity@.len() >= IDENTITY_SERIAL_BYTES,
            forall|j: int| 0 <= j < i ==> {
                &&& #[trigger] serial@[2 * j] == spec_hex_digit(identity@[j] / 16)
                &&& serial@[2 * j + 1] == spec_hex_digit(identity@[j] % 16)
            },
        decreases IDENTITY_SERIAL_BYTES - i,
    {
        let b: u8 = identity[i];
        if serial[2 * i] != hex_digit(b / 16) || serial[2 * i + 1] != hex_digit(b % 16) {
            return false;
        }
        i = i + 1;
    }
    proof {
        assert forall|k: int| 0 <= k < IDENTITY_SERIAL_BYTES implies {
            &&& #[trigger] serial@[2 * k] == spec_hex_digit(identity@[k] / 16)
            &&& serial@[2 * k + 1] == spec_hex_digit(identity@[k] % 16)
        } by {
            assert(serial@[2 * k] == spec_hex_digit(identity@[k] / 16));
        }
        assert(spec_serial_matches_identity(serial@, identity@));
    }
    true
}

} // verus!
