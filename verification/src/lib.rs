//! Emulation core for a wireless game-controller receiver presented over USB.
//!
//! The crate holds the protocol engine: the wire-format codec for input
//! reports, the per-slot controller state cells, the connection/handshake
//! state machine, the USB descriptor tables, the device identity, and the
//! decoder for host-to-device commands. Endpoint I/O, the executor and the
//! hardware drivers live outside this crate and talk to it through plain
//! values and events.

pub mod cell;
pub mod command;
pub mod descriptor;
pub mod device;
pub mod engine;
pub mod errors;
pub mod gamepad;
pub mod identity;
pub mod report;
