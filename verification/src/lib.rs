use vstd::prelude::*;

pub mod apu;
pub mod bits;
pub mod bus;
pub mod cartridge;
pub mod config;
pub mod constants;
pub mod cpu;
pub mod joypad;
pub mod ppu;
pub mod text;
pub mod timer;

verus! {

} // verus!
