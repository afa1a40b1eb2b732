//! Interrupt request bits as they stand in IE (0xFFFF) and IF (0xFF0F).
use vstd::prelude::*;

verus! {

pub const VBLANK_INT: u8 = 1;
pub const STAT_INT: u8 = 2;
pub const TIMER_INT: u8 = 4;
pub const SERIAL_INT: u8 = 8;
pub const JOYPAD_INT: u8 = 16;

} // verus!
