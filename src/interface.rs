//! Capability traits: byte access on the CPU bus and on the PPU's video bus,
//! and powering on.
use vstd::prelude::*;

verus! {

/// Byte reads and writes on the CPU bus, each one a bus cycle.
pub trait SystemBus: Sized {
    /// Whether the bus can take one more access now.
    spec fn bus_ready(&self) -> bool;

    /// Whether the bus can take `n` more accesses' worth of cycles.
    spec fn bus_ready_for(&self, n: int) -> bool;

    /// What a read of `addr` returns in this state.
    spec fn bus_peek(&self, addr: u16) -> u8;

    /// How a write of `data` to `addr` takes this state to `after`.
    spec fn bus_write_effect(&self, after: Self, addr: u16, data: u8) -> bool;

    fn read_u8(&mut self, addr: u16) -> (r: u8)
        requires
            old(self).bus_ready(),
        ensures
            r == old(self).bus_peek(addr),
            final(self).bus_ready() || !old(self).bus_ready_for(4),
    ;

    fn write_u8(&mut self, addr: u16, data: u8)
        requires
            old(self).bus_ready(),
        ensures
            old(self).bus_write_effect(*final(self), addr, data),
            final(self).bus_ready() || !old(self).bus_ready_for(4),
    ;
}

/// Reads and writes on the video bus; `addr` is in 0x0000..0x4000.
pub trait VideoBus {
    spec fn video_ready(&self) -> bool;

    /// What the video bus holds at `addr`.
    spec fn video_value(&self, addr: u16) -> u8;

    fn read_video_u8(&mut self, addr: u16) -> (r: u8)
        requires
            old(self).video_ready(),
            addr < 0x4000,
        ensures
            r == old(self).video_value(addr),
            final(self).video_ready(),
    ;

    /// Whether `addr` holds writable memory.
    spec fn video_writable(&self, addr: u16) -> bool;

    fn write_video_u8(&mut self, addr: u16, data: u8)
        requires
            old(self).video_ready(),
            addr < 0x4000,
        ensures
            final(self).video_ready(),
            old(self).video_writable(addr) ==> final(self).video_value(addr) == data,
            !old(self).video_writable(addr) ==> final(self).video_value(addr) == old(self).video_value(addr),
    ;
}

pub trait EmulateControl: Sized {
    spec fn can_power_on(&self) -> bool;

    /// What powering on makes of this state.
    spec fn poweron_effect(&self, after: Self) -> bool;

    fn poweron(&mut self)
        requires
            old(self).can_power_on(),
        ensures
            old(self).poweron_effect(*final(self)),
    ;
}

} // verus!
