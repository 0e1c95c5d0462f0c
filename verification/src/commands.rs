//! Command catalog: the named one-byte opcodes the controller understands,
//! each annotated with the number of parameter bytes it expects.

use vstd::prelude::*;

verus! {

/// Software reset. No parameters.
pub const RESET: u8 = 0x01;
/// Enter sleep mode. No parameters.
pub const SLEEP_IN: u8 = 0x10;
/// Leave sleep mode. No parameters.
pub const SLEEP_OUT: u8 = 0x11;
/// Enter partial display mode. No parameters.
pub const PARTIAL_DISPLAY_MODE: u8 = 0x12;
/// Enter normal display mode. No parameters.
pub const NORMAL_DISPLAY_MODE: u8 = 0x13;
/// Turn display inversion off. No parameters.
pub const DISPLAY_INVERSION_OFF: u8 = 0x20;
/// Turn display inversion on. No parameters.
pub const DISPLAY_INVERSION_ON: u8 = 0x21;
/// Select a gamma curve. One parameter byte:
/// 0x01, 0x02, 0x04 or 0x08 for G2.2, G1.8, G2.5 or G1.0.
pub const GAMMA_SET: u8 = 0x26;
/// Blank the display. No parameters.
pub const DISPLAY_OFF: u8 = 0x28;
/// Enable display output. No parameters.
pub const DISPLAY_ON: u8 = 0x29;
/// Set the column address window. Four parameter bytes:
/// start high, start low, end high, end low.
pub const COLUMN_ADDRESS_SET: u8 = 0x2A;
/// Set the row address window. Four parameter bytes:
/// start high, start low, end high, end low.
pub const ROW_ADDRESS_SET: u8 = 0x2B;
/// Begin a memory write; the parameter bytes are pixel data of
/// context-dependent length (the size of the address window).
pub const MEMORY_WRITE: u8 = 0x2C;
/// Set the interface pixel format. One parameter byte:
/// [`PIXEL_FORMAT_RGB565`] or [`PIXEL_FORMAT_RGB666`].
pub const COL_MODE: u8 = 0x3A;

/// Parameter byte for [`COL_MODE`] selecting 16-bit-per-pixel color.
pub const PIXEL_FORMAT_RGB565: u8 = 0x55;
/// Parameter byte for [`COL_MODE`] selecting 18-bit-per-pixel color.
pub const PIXEL_FORMAT_RGB666: u8 = 0x66;

/// Number of parameter bytes a catalog opcode expects: `Some(n)` for the
/// commands with a fixed arity, `None` for [`MEMORY_WRITE`], whose payload
/// length depends on the current address window, and for bytes that are not
/// catalog opcodes.
pub open spec fn command_arity(op: u8) -> Option<u8> {
    if op == RESET || op == SLEEP_IN || op == SLEEP_OUT || op == PARTIAL_DISPLAY_MODE
        || op == NORMAL_DISPLAY_MODE || op == DISPLAY_INVERSION_OFF
        || op == DISPLAY_INVERSION_ON || op == DISPLAY_OFF || op == DISPLAY_ON {
        Some(0u8)
    } else if op == GAMMA_SET || op == COL_MODE {
        Some(1u8)
    } else if op == COLUMN_ADDRESS_SET || op == ROW_ADDRESS_SET {
        Some(4u8)
    } else {
        None
    }
}

/// Retrieve the arity of a catalog opcode.
pub fn arity_of(op: u8) -> (r: Option<u8>)
    ensures
        r == command_arity(op),
{
    if op == RESET || op == SLEEP_IN || op == SLEEP_OUT || op == PARTIAL_DISPLAY_MODE
        || op == NORMAL_DISPLAY_MODE || op == DISPLAY_INVERSION_OFF
        || op == DISPLAY_INVERSION_ON || op == DISPLAY_OFF || op == DISPLAY_ON {
        Some(0u8)
    } else if op == GAMMA_SET || op == COL_MODE {
        Some(1u8)
    } else if op == COLUMN_ADDRESS_SET || op == ROW_ADDRESS_SET {
        Some(4u8)
    } else {
        None
    }
}

} // verus!
