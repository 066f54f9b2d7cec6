//! Bit positions of the shared interrupt-request byte.  The CPU, the timer
//! and the GPU all OR bits into it; the driving loop clears the bits it has
//! serviced.

use vstd::prelude::*;

verus! {

/// Vertical-blank interrupt request.
pub const INT_VBLANK: u8 = 0x01;

/// LCD-status interrupt request.
pub const INT_LCDSTAT: u8 = 0x02;

/// Timer-overflow interrupt request.
pub const INT_TIMER: u8 = 0x04;

/// Serial-transfer interrupt request.
pub const INT_SERIAL: u8 = 0x08;

/// Joypad interrupt request.
pub const INT_JOYPAD: u8 = 0x10;

} // verus!
