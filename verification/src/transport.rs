//! Operations on the panel's transport.
//!
//! The panel hangs off a reset line and an I2C bus.  The verified core never
//! touches either: it records the exact sequence of transport operations each
//! driver call decides on, and an unverified shell replays them against the
//! hardware.  A recorded sequence is therefore the core's complete, checkable
//! description of what reaches the panel.

use vstd::prelude::*;

verus! {

/// One operation on the panel's transport, in the order it must be performed.
#[derive(Clone, Copy, Debug, PartialEq, Eq, Structural)]
pub enum TransportOp {
    /// Drive the reset line high (`true`) or low (`false`).
    Reset(bool),
    /// Write one register/command byte (I2C transfer with sub-address 0x00).
    Command(u8),
    /// Write one framebuffer data byte (I2C transfer with sub-address 0x40).
    Data(u8),
    /// Hold for the given number of milliseconds before the next operation.
    DelayMs(u64),
}

/// The command-byte operations that stream a sequence of register bytes.
pub open spec fn command_ops(bytes: Seq<u8>) -> Seq<TransportOp> {
    bytes.map(|_i: int, b: u8| TransportOp::Command(b))
}

/// The data-byte operations that stream a sequence of framebuffer bytes.
pub open spec fn data_ops(bytes: Seq<u8>) -> Seq<TransportOp> {
    bytes.map(|_i: int, b: u8| TransportOp::Data(b))
}

} // verus!
