use vstd::prelude::*;

verus! {

pub const LCD_WIDTH: usize = 160;

pub const LCD_HEIGHT: usize = 144;

pub const BYTES_PER_PIXEL: usize = 4;

pub const LCD_BYTE_WIDTH: usize = 640;

/// Determines game speed: 2^22 T-cycles per second.
pub const T_CYCLE_HZ: u32 = 4194304;

pub const M_CYCLE_HZ: u32 = 1048576;

/// One T-cycle is 2^-22 s, about 238.4 ns (truncated).
pub const T_CYCLE_DURATION_NS: u64 = 238;

} // verus!
