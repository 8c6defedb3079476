//! USB descriptor construction: the device descriptor, the configuration
//! descriptor with one vendor-specific interface per controller slot, and
//! ASCII string descriptors.
//!
//! Buffers for these descriptors have fixed capacities; assembly fails fast
//! when content would overflow one, since an undersized buffer is a
//! configuration error the device cannot recover from at run time.

use vstd::prelude::*;
use crate::device::NUM_SLOTS;
use crate::errors::ConfigError;

verus! {

/// Length in bytes of the standard USB device descriptor.
pub const DEVICE_DESCRIPTOR_LEN: usize = 18;

/// Length in bytes of the configuration-descriptor header.
pub const CONFIG_HEADER_LEN: usize = 9;

/// Length in bytes of one slot's interface block: the interface descriptor,
/// the vendor class descriptor, and the IN and OUT endpoint descriptors.
pub const INTERFACE_BLOCK_LEN: usize = 43;

/// Longest string a string descriptor can carry: its length field is one
/// byte and each character takes two bytes on the wire.
pub const MAX_STRING_LEN: usize = 126;

/// Static identity of the emulated receiver, fed to descriptor assembly.
#[derive(Clone, Copy, PartialEq, Eq, Structural, Debug)]
pub struct DeviceConfig {
    pub vid: u16,
    pub pid: u16,
    pub device_release: u16,
    pub device_class: u8,
    pub device_sub_class: u8,
    pub device_protocol: u8,
    pub max_packet_size_0: u8,
    /// Bus power draw in milliamperes; the descriptor field holds it in
    /// units of 2 mA, so it must fit twice a byte.
    pub max_power_ma: u16,
    /// How many controller-slot interfaces to expose.
    pub n_slots: usize,
}

impl DeviceConfig {
    /// Well-formedness: at least one slot, no more than the receiver
    /// multiplexes, and a power draw its one-byte 2 mA field can encode.
    pub open spec fn wf(self) -> bool {
        &&& 1 <= self.n_slots <= NUM_SLOTS
        &&& self.max_power_ma <= 510
    }
}

/// The configuration of the emulated wireless receiver: Microsoft's vendor
/// ID, the wireless-receiver product ID, a fully vendor-specific device
/// class, and a 260 mA power draw.
pub fn receiver_config(n_slots: usize) -> (cfg: DeviceConfig)
    requires
        1 <= n_slots <= NUM_SLOTS,
    ensures
        cfg == (DeviceConfig {
            vid: 0x045E,
            pid: 0x0719,
            device_release: 0x0100,
            device_class: 0xFF,
            device_sub_class: 0xFF,
            device_protocol: 0xFF,
            max_packet_size_0: 64,
            max_power_ma: 260,
            n_slots,
        }),
        cfg.wf(),
{
    DeviceConfig {
        vid: 0x045E,
        pid: 0x0719,
        device_release: 0x0100,
        device_class: 0xFF,
        device_sub_class: 0xFF,
        device_protocol: 0xFF,
        max_packet_size_0: 64,
        max_power_ma: 260,
        n_slots,
    }
}

/// The 18 bytes of the standard device descriptor for `cfg`: USB 2.0, the
/// configured class triple and packet size, vendor/product/release words in
/// little-endian order, the three standard string indices, one configuration.
pub open spec fn spec_device_descriptor(cfg: DeviceConfig) -> Seq<u8> {
    seq![
        0x12u8, 0x01u8, 0x00u8, 0x02u8,
        cfg.device_class, cfg.device_sub_class, cfg.device_protocol, cfg.max_packet_size_0,
        (cfg.vid as int % 256) as u8, (cfg.vid as int / 256) as u8,
        (cfg.pid as int % 256) as u8, (cfg.pid as int / 256) as u8,
        (cfg.device_release as int % 256) as u8, (cfg.device_release as int / 256) as u8,
        0x01u8, 0x02u8, 0x03u8, 0x01u8,
    ]
}

/// Assembles the device descriptor.
pub fn device_descriptor(cfg: &DeviceConfig) -> (r: Vec<u8>)
    ensures
        r@ == spec_device_descriptor(*cfg),
        r@.len() == DEVICE_DESCRIPTOR_LEN,
{
    let r: Vec<u8> = vec![
        0x12u8, 0x01u8, 0x00u8, 0x02u8,
        cfg.device_class, cfg.device_sub_class, cfg.device_protocol, cfg.max_packet_size_0,
        (cfg.vid % 256) as u8, (cfg.vid / 256) as u8,
        (cfg.pid % 256) as u8, (cfg.pid / 256) as u8,
        (cfg.device_release % 256) as u8, (cfg.device_release / 256) as u8,
        0x01u8, 0x02u8, 0x03u8, 0x01u8,
    ];
    proof {
        assert(r@ =~= spec_device_descriptor(*cfg));
    }
    r
}

/// The IN endpoint address of slot `i` (direction bit set).
pub open spec fn spec_in_endpoint(i: int) -> u8 {
    (0x81 + i) as u8
}

/// The OUT endpoint address of slot `i`.
pub open spec fn spec_out_endpoint(i: int) -> u8 {
    (0x01 + i) as u8
}

/// The 43-byte interface block of slot `i`: an interface descriptor with the
/// vendor-specific class triple the host driver matches on, the vendor class
/// descriptor naming the two endpoints, and the interrupt IN and OUT
/// endpoint descriptors (32-byte packets; 1 ms and 8 ms intervals).
pub open spec fn spec_interface_block(i: int) -> Seq<u8> {
    seq![
        // interface descriptor
        0x09u8, 0x04u8, i as u8, 0x00u8, 0x02u8, 0xFFu8, 0x5Du8, 0x81u8, 0x00u8,
        // vendor class descriptor
        0x14u8, 0x22u8, 0x00u8, 0x01u8, 0x13u8, spec_in_endpoint(i), 0x1Du8, 0x00u8,
        0x17u8, 0x01u8, 0x02u8, 0x08u8, 0x13u8, spec_out_endpoint(i), 0x0Cu8, 0x00u8,
        0x0Cu8, 0x01u8, 0x02u8, 0x08u8,
        // interrupt IN endpoint
        0x07u8, 0x05u8, spec_in_endpoint(i), 0x03u8, 0x20u8, 0x00u8, 0x01u8,
        // interrupt OUT endpoint
        0x07u8, 0x05u8, spec_out_endpoint(i), 0x03u8, 0x20u8, 0x00u8, 0x08u8,
    ]
}

/// The interface blocks of slots `0 .. n`, concatenated in slot order.
pub open spec fn spec_interface_blocks(n: int) -> Seq<u8>
    decreases n,
{
    if n <= 0 {
        Seq::empty()
    } else {
        spec_interface_blocks(n - 1) + spec_interface_block(n - 1)
    }
}

/// Total length in bytes of the configuration descriptor for `n` slots.
pub open spec fn spec_config_total_len(n: int) -> int {
    CONFIG_HEADER_LEN + INTERFACE_BLOCK_LEN * n
}

/// The configuration-descriptor header: total length in little-endian order,
/// one interface per slot, configuration value 1, bus powered with remote
/// wakeup, power draw in 2 mA units.
pub open spec fn spec_config_header(cfg: DeviceConfig) -> Seq<u8> {
    seq![
        0x09u8, 0x02u8,
        (spec_config_total_len(cfg.n_slots as int) % 256) as u8,
        (spec_config_total_len(cfg.n_slots as int) / 256) as u8,
        cfg.n_slots as u8, 0x01u8, 0x00u8, 0xA0u8,
        (cfg.max_power_ma as int / 2) as u8,
    ]
}

/// The whole configuration descriptor for `cfg`.
pub open spec fn spec_config_descriptor(cfg: DeviceConfig) -> Seq<u8> {
    spec_config_header(cfg) + spec_interface_blocks(cfg.n_slots as int)
}

/// Law — the configuration descriptor is exactly as long as its header
/// advertises, for every well-formed configuration.
pub proof fn lemma_config_descriptor_len(cfg: DeviceConfig)
    requires
        cfg.wf(),
    ensures
        spec_config_descriptor(cfg).len() == spec_config_total_len(cfg.n_slots as int),
        spec_config_header(cfg)[2] == spec_config_total_len(cfg.n_slots as int) as u8,
        spec_config_header(cfg)[3] == 0u8,
{
    lemma_interface_blocks_len(cfg.n_slots as int);
}

/// The concatenated interface blocks of `n` slots take `43 * n` bytes.
pub proof fn lemma_interface_blocks_len(n: int)
    requires
        n >= 0,
    ensures
        spec_interface_blocks(n).len() == INTERFACE_BLOCK_LEN * n,
    decreases n,
{
    if n > 0 {
        lemma_interface_blocks_len(n - 1);
    }
}

/// Assembles the 43-byte interface block of slot `i`.
pub fn interface_block(i: usize) -> (r: Vec<u8>)
    requires
        i < NUM_SLOTS,
    ensures
        r@ == spec_interface_block(i as int),
        r@.len() == INTERFACE_BLOCK_LEN,
{
    let ep_in: u8 = 0x81 + (i as u8);
    let ep_out: u8 = 0x01 + (i as u8);
    let r: Vec<u8> = vec![
        0x09u8, 0x04u8, i as u8, 0x00u8, 0x02u8, 0xFFu8, 0x5Du8, 0x81u8, 0x00u8,
        0x14u8, 0x22u8, 0x00u8, 0x01u8, 0x13u8, ep_in, 0x1Du8, 0x00u8,
        0x17u8, 0x01u8, 0x02u8, 0x08u8, 0x13u8, ep_out, 0x0Cu8, 0x00u8,
        0x0Cu8, 0x01u8, 0x02u8, 0x08u8,
        0x07u8, 0x05u8, ep_in, 0x03u8, 0x20u8, 0x00u8, 0x01u8,
        0x07u8, 0x05u8, ep_out, 0x03u8, 0x20u8, 0x00u8, 0x08u8,
    ];
    proof {
        assert(r@ =~= spec_interface_block(i as int));
    }
    r
}

/// Assembles the configuration descriptor into a buffer of the given fixed
/// capacity. Fails with `DescriptorOverflow` exactly when the content would
/// not fit: undersizing the buffer is fatal at initialization, never
/// recovered at run time.
pub fn build_config_descriptor(cfg: &DeviceConfig, capacity: usize) -> (r: Result<
    Vec<u8>,
    ConfigError,
>)
    requires
        cfg.wf(),
    ensures
        r is Ok <==> spec_config_total_len(cfg.n_slots as int) <= capacity,
        r matches Ok(v) ==> {
            &&& v@ == spec_config_descriptor(*cfg)
            &&& v@.len() == spec_config_total_len(cfg.n_slots as int)
            &&& v@.len() <= capacity
        },
        r matches Err(e) ==> e == ConfigError::DescriptorOverflow,
{
    let total: usize = CONFIG_HEADER_LEN + INTERFACE_BLOCK_LEN * cfg.n_slots;
    if total > capacity {
        return Err(ConfigError::DescriptorOverflow);
    }
    let mut r: Vec<u8> = vec![
        0x09u8, 0x02u8, total as u8, 0x00u8,
        cfg.n_slots as u8, 0x01u8, 0x00u8, 0xA0u8,
        (cfg.max_power_ma / 2) as u8,
    ];
    proof {
        assert(total as int % 256 == total as int && total as int / 256 == 0);
        assert(r@ =~= spec_config_header(*cfg));
    }
    let mut i: usize = 0;
    while i < cfg.n_slots
        invariant
            cfg.wf(),
            i <= cfg.n_slots,
            r@ == spec_config_header(*cfg) + spec_interface_blocks(i as int),
        decreases cfg.n_slots - i,
    {
        let mut block: Vec<u8> = interface_block(i);
        r.append(&mut block);
        proof {
            assert(r@ =~= spec_config_header(*cfg) + spec_interface_blocks(i as int + 1));
        }
        i = i + 1;
    }
    proof {
        lemma_config_descriptor_len(*cfg);
    }
    Ok(r)
}

/// The string descriptor carrying the ASCII string `s`: a length byte, the
/// string-descriptor type byte, then each character widened to two bytes.
pub open spec fn spec_string_descriptor(s: Seq<u8>) -> Seq<u8> {
    seq![(2 + 2 * s.len()) as u8, 0x03u8]
        + Seq::new(2 * s.len(), |i: int| if i % 2 == 0 { s[i / 2] } else { 0u8 })
}

/// Assembles the string descriptor for an ASCII string. Fails with
/// `StringTooLong` exactly when the string would overflow the descriptor's
/// one-byte length field.
pub fn string_descriptor(s: &Vec<u8>) -> (r: Result<Vec<u8>, ConfigError>)
    ensures
        r is Ok <==> s@.len() <= MAX_STRING_LEN,
        r matches Ok(v) ==> {
            &&& v@ == spec_string_descriptor(s@)
            &&& v@.len() == 2 + 2 * s@.len()
        },
        r matches Err(e) ==> e == ConfigError::StringTooLong,
{
    if s.len() > MAX_STRING_LEN {
        return Err(ConfigError::StringTooLong);
    }
    let mut r: Vec<u8> = Vec::new();
    r.push((2 + 2 * s.len()) as u8);
    r.push(0x03u8);
    let mut i: usize = 0;
    while i < s.len()
        invariant
            i <= s@.len(),
            s@.len() <= MAX_STRING_LEN,
            r@.len() == 2 + 2 * i,
            r@[0] == (2 + 2 * s@.len()) as u8,
            r@[1] == 0x03u8,
            forall|j: int| 0 <= j < 2 * i ==> #[trigger] r@[2 + j]
                == (if j % 2 == 0 { s@[j / 2] } else { 0u8 }),
        decreases s@.len() - i,
    {
        r.push(s[i]);
        r.push(0u8);
        i = i + 1;
    }
    proof {
        assert forall|k: int| 0 <= k < r@.len() implies r@[k] == spec_string_descriptor(s@)[k] by {
            if k >= 2 {
                assert(r@[2 + (k - 2)] == (if (k - 2) % 2 == 0 { s@[(k - 2) / 2] } else { 0u8 }));
            }
        }
        assert(r@ =~= spec_string_descriptor(s@));
    }
    Ok(r)
}

} // verus!
