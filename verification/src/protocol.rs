//! Wire constants of the command and status protocol.
use vstd::prelude::*;

verus! {

/// First byte of every command frame.
pub const CMD_MAGIC_START: u8 = 0x42;

/// Last byte of every command frame.
pub const CMD_MAGIC_END: u8 = 0x24;

/// First byte of every status reply.
pub const STATUS_MAGIC_START: u8 = 0x32;

/// Byte that closes the payload of a status reply.
pub const STATUS_MAGIC_END: u8 = 0x23;

/// Action code that switches a port off.
pub const CMD_CODE_OFF: u8 = 0;

/// Action code that switches a port on.
pub const CMD_CODE_ON: u8 = 1;

/// Action code that power-cycles a port.
pub const CMD_CODE_REBOOT: u8 = 2;

/// Action code that asks for the state of a port.
pub const CMD_CODE_STATUS: u8 = 3;

/// Number of bytes in a command frame.
pub const FRAME_LEN: usize = 4;

/// Number of bytes the frame accumulator can hold.
pub const CAPACITY: usize = 128;

/// Pause, in milliseconds, before a command is carried out and while a
/// rebooting port is held.
pub const SETTLE_DELAY_MS: u16 = 5000;

} // verus!
