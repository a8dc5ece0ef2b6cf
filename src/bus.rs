//! Address decoding for the CPU's 16-bit system bus.
use vstd::prelude::*;

verus! {

/// Physical work RAM size; the 0x0000..0x2000 window mirrors it four times.
pub const WRAM_SIZE: usize = 0x0800;

/// Which device answers a CPU read at a given address.
#[derive(Clone, Copy, PartialEq, Eq, Debug, Structural)]
pub enum ReadTarget {
    /// Work RAM, at the given physical index.
    Wram(u16),
    /// One of the eight PPU registers.
    PpuRegister(u8),
    /// 0x4014, the write-only OAM DMA trigger: reads are entirely open bus.
    OamDma,
    /// 0x4016, controller port 1.
    Port1,
    /// 0x4017, controller port 2.
    Port2,
    /// Any other APU / I-O register in 0x4000..0x4020.
    Apu,
    /// 0x4020..=0xFFFF.
    Cartridge,
}

/// Which devices take a CPU write at a given address.
#[derive(Clone, Copy, PartialEq, Eq, Debug, Structural)]
pub enum WriteTarget {
    Wram(u16),
    PpuRegister(u8),
    /// 0x4014: the CPU performs the DMA itself, nothing else listens.
    OamDma,
    /// 0x4016: both controller strobes and the APU.
    PortsAndApu,
    /// Any other APU / I-O register (0x4017 included).
    Apu,
    Cartridge,
}

pub open spec fn wram_index(addr: u16) -> u16 {
    (addr as int % WRAM_SIZE as int) as u16
}

pub open spec fn read_target(addr: u16) -> ReadTarget {
    if addr < 0x2000 {
        ReadTarget::Wram(wram_index(addr))
    } else if addr < 0x4000 {
        ReadTarget::PpuRegister((addr % 8) as u8)
    } else if addr < 0x4020 {
        if addr == 0x4014 {
            ReadTarget::OamDma
        } else if addr == 0x4016 {
            ReadTarget::Port1
        } else if addr == 0x4017 {
            ReadTarget::Port2
        } else {
            ReadTarget::Apu
        }
    } else {
        ReadTarget::Cartridge
    }
}

pub open spec fn write_target(addr: u16) -> WriteTarget {
    if addr < 0x2000 {
        WriteTarget::Wram(wram_index(addr))
    } else if addr < 0x4000 {
        WriteTarget::PpuRegister((addr % 8) as u8)
    } else if addr < 0x4020 {
        if addr == 0x4014 {
            WriteTarget::OamDma
        } else if addr == 0x4016 {
            WriteTarget::PortsAndApu
        } else {
            WriteTarget::Apu
        }
    } else {
        WriteTarget::Cartridge
    }
}

/// Decodes an address for a read; total over the 16-bit space.
pub fn decode_read(addr: u16) -> (r: ReadTarget)
    ensures
        r == read_target(addr),
{
    if addr < 0x2000 {
        ReadTarget::Wram(addr % (WRAM_SIZE as u16))
    } else if addr < 0x4000 {
        ReadTarget::PpuRegister((addr % 8) as u8)
    } else if addr < 0x4020 {
        if addr == 0x4014 {
            ReadTarget::OamDma
        } else if addr == 0x4016 {
            ReadTarget::Port1
        } else if addr == 0x4017 {
            ReadTarget::Port2
        } else {
            ReadTarget::Apu
        }
    } else {
        ReadTarget::Cartridge
    }
}

/// Decodes an address for a write; total over the 16-bit space.
pub fn decode_write(addr: u16) -> (r: WriteTarget)
    ensures
        r == write_target(addr),
{
    if addr < 0x2000 {
        WriteTarget::Wram(addr % (WRAM_SIZE as u16))
    } else if addr < 0x4000 {
        WriteTarget::PpuRegister((addr % 8) as u8)
    } else if addr < 0x4020 {
        if addr == 0x4014 {
            WriteTarget::OamDma
        } else if addr == 0x4016 {
            WriteTarget::PortsAndApu
        } else {
            WriteTarget::Apu
        }
    } else {
        WriteTarget::Cartridge
    }
}

/// The byte seen on the bus when a device drives only the bits outside
/// `undefined_bits`: the rest keep what was last on the bus.
pub open spec fn open_bus_fill(value: u8, undefined_bits: u8, latch: u8) -> u8 {
    (value & !undefined_bits) | (latch & undefined_bits)
}

/// Work RAM is mirrored: addresses below 0x2000 that differ by a multiple
/// of 0x0800 reach the same cell, for reads and for writes.
pub proof fn lemma_wram_mirrored(a: u16, k: u16)
    requires
        1 <= k <= 3,
        a + 0x0800 * k < 0x2000,
    ensures
        read_target((a + 0x0800 * k) as u16) == read_target(a),
        write_target((a + 0x0800 * k) as u16) == write_target(a),
        read_target(a) == ReadTarget::Wram(a % 0x0800),
{
}

/// Every address in 0x2000..0x4000 selects PPU register `addr % 8`.
pub proof fn lemma_ppu_registers_mirrored(a: u16)
    requires
        0x2000 <= a < 0x4000,
    ensures
        read_target(a) == ReadTarget::PpuRegister((a % 8) as u8),
        write_target(a) == WriteTarget::PpuRegister((a % 8) as u8),
{
}

} // verus!
