//! The error taxonomy: configuration errors are fatal at initialization,
//! transmit errors are classified into retry, connection loss, or a fatal
//! schema defect.

use vstd::prelude::*;

verus! {

/// Errors detected while assembling the device: the device could not
/// enumerate meaningfully, so initialization must halt.
#[derive(Clone, Copy, PartialEq, Eq, Structural, Debug)]
pub enum ConfigError {
    /// Descriptor content would not fit its fixed-capacity buffer.
    DescriptorOverflow,
    /// The handshake identity is not exactly seven bytes.
    BadIdentityLength,
    /// A string passed to a descriptor is too long for a descriptor's
    /// one-byte length field.
    StringTooLong,
}

/// Failures the endpoint layer can report for one transmit attempt.
#[derive(Clone, Copy, PartialEq, Eq, Structural, Debug)]
pub enum TransmitError {
    /// The endpoint is not yet configured by the host.
    EndpointDisabled,
    /// The endpoint stalled or the transfer was cut off.
    Stalled,
    /// The report is longer than the endpoint's max packet size.
    BufferTooLong,
}

/// What the engine's embedding must do about one transmit failure.
#[derive(Clone, Copy, PartialEq, Eq, Structural, Debug)]
pub enum TransmitOutcome {
    /// Transient: retry on the next tick, surface nothing.
    Retry,
    /// The host stopped listening: feed a stall event into the slot's engine
    /// so it returns to `Disconnected` and re-runs the handshake.
    ConnectionLost,
    /// A schema defect: the encoded report does not fit the endpoint. Halt,
    /// do not retry.
    Fatal,
}

/// Classifies a transmit failure: endpoint-disabled is transient, a stall is
/// a connection loss, an oversized report is a programmer error.
pub fn classify_transmit_error(e: TransmitError) -> (r: TransmitOutcome)
    ensures
        r == (match e {
            TransmitError::EndpointDisabled => TransmitOutcome::Retry,
            TransmitError::Stalled => TransmitOutcome::ConnectionLost,
            TransmitError::BufferTooLong => TransmitOutcome::Fatal,
        }),
{
    match e {
        TransmitError::EndpointDisabled => TransmitOutcome::Retry,
        TransmitError::Stalled => TransmitOutcome::ConnectionLost,
        TransmitError::BufferTooLong => TransmitOutcome::Fatal,
    }
}

/// Whether a report of length `report_len` fits an endpoint whose max packet
/// size is `max_packet`; false marks the fatal schema mismatch.
pub fn report_fits(report_len: usize, max_packet: usize) -> (r: bool)
    ensures
        r == (report_len <= max_packet),
{
    report_len <= max_packet
}

} // verus!
