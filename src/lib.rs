//! A cycle-stepped model of the NES system bus: address decoding with mirroring,
//! open-bus behaviour, and the lockstep clocking of CPU, PPU and APU.
use vstd::prelude::*;

pub mod bus;
pub mod interface;
pub mod port;
pub mod cartridge;
pub mod apu;
pub mod ppu;
pub mod framebuffer;
pub mod system;
pub mod cpu;
pub mod nes;

verus! {

} // verus!
