//! The cartridge slot: program ROM and RAM on the CPU bus, pattern memory on
//! the PPU bus. The mapper modelled is the fixed-bank NROM board; an empty
//! slot drives nothing.
use vstd::prelude::*;

verus! {

pub const PRG_BANK_SIZE: usize = 0x4000;
pub const PRG_RAM_SIZE: usize = 0x2000;
pub const CHR_SIZE: usize = 0x2000;

#[derive(Clone, Debug)]
pub struct Cartridge {
    /// Empty (no cartridge), or one or two 16 KiB banks mapped at 0x8000.
    pub prg_rom: Vec<u8>,
    /// 8 KiB of work RAM at 0x6000..0x8000 (absent when the slot is empty).
    pub prg_ram: Vec<u8>,
    /// 8 KiB of pattern memory on the PPU bus.
    pub chr: Vec<u8>,
    /// Whether the pattern memory is RAM (writable) rather than ROM.
    pub chr_is_ram: bool,
}

impl Cartridge {
    pub open spec fn wf(&self) -> bool {
        &&& (self.prg_rom.len() == 0 || self.prg_rom.len() == PRG_BANK_SIZE
            || self.prg_rom.len() == 2 * PRG_BANK_SIZE)
        &&& (self.prg_rom.len() == 0 ==> self.prg_ram.len() == 0)
        &&& (self.prg_rom.len() != 0 ==> self.prg_ram.len() == PRG_RAM_SIZE)
        &&& self.chr.len() == CHR_SIZE
    }

    pub open spec fn is_empty(&self) -> bool {
        self.prg_rom.len() == 0
    }

    /// What a CPU read at `addr` (0x4020..=0xFFFF) gives: the value and the
    /// bits the cartridge leaves undriven.
    pub open spec fn bus_value(&self, addr: u16) -> (u8, u8) {
        if self.is_empty() || addr < 0x6000 {
            (0, 0xff)
        } else if addr < 0x8000 {
            (self.prg_ram@[addr - 0x6000], 0)
        } else {
            (self.prg_rom@[(addr - 0x8000) % self.prg_rom.len() as int], 0)
        }
    }

    /// A copy with the same banks and memories.
    pub fn duplicate(&self) -> (r: Cartridge)
        ensures
            r.prg_rom@ == self.prg_rom@,
            r.prg_ram@ == self.prg_ram@,
            r.chr@ == self.chr@,
            r.chr_is_ram == self.chr_is_ram,
            self.wf() ==> r.wf(),
    {
        Cartridge {
            prg_rom: copy_bytes(&self.prg_rom),
            prg_ram: copy_bytes(&self.prg_ram),
            chr: copy_bytes(&self.chr),
            chr_is_ram: self.chr_is_ram,
        }
    }

    /// An empty slot.
    pub fn none() -> (r: Cartridge)
        ensures
            r.wf(),
            r.is_empty(),
    {
        Cartridge { prg_rom: Vec::new(), prg_ram: Vec::new(), chr: zeroed(CHR_SIZE), chr_is_ram: true }
    }

    /// An NROM board from its program banks and pattern memory. `chr` may be
    /// empty, in which case the board carries 8 KiB of pattern RAM. Returns
    /// `None` unless `prg` is 16 or 32 KiB and `chr` is empty or 8 KiB.
    pub fn nrom(prg: Vec<u8>, chr: Vec<u8>) -> (r: Option<Cartridge>)
        ensures
            r.is_some() <==> ((prg.len() == PRG_BANK_SIZE || prg.len() == 2 * PRG_BANK_SIZE)
                && (chr.len() == 0 || chr.len() == CHR_SIZE)),
            r matches Some(c) ==> {
                &&& c.wf()
                &&& c.prg_rom@ == prg@
                &&& c.chr_is_ram == (chr.len() == 0)
                &&& chr.len() != 0 ==> c.chr@ == chr@
            },
    {
        if prg.len() != PRG_BANK_SIZE && prg.len() != 2 * PRG_BANK_SIZE {
            return None;
        }
        if chr.len() != 0 && chr.len() != CHR_SIZE {
            return None;
        }
        let chr_is_ram = chr.len() == 0;
        let chr = if chr_is_ram { zeroed(CHR_SIZE) } else { chr };
        Some(Cartridge { prg_rom: prg, prg_ram: zeroed(PRG_RAM_SIZE), chr, chr_is_ram })
    }

    /// Whether the mapper holds its interrupt line low; NROM has no
    /// interrupt source.
    pub open spec fn irq_asserted(&self) -> bool {
        false
    }

    /// The mapper's interrupt line.
    pub fn irq(&self) -> (r: bool)
        ensures
            r == self.irq_asserted(),
    {
        false
    }

    /// Power-on: NROM has no banking state to restore.
    pub fn power_cycle(&mut self)
        ensures
            *final(self) == *old(self),
    {
    }

    /// The reset line does not reach NROM's logic.
    pub fn reset(&mut self)
        ensures
            *final(self) == *old(self),
    {
    }

    /// A CPU read at `addr`, returning the value and its undriven bits.
    pub fn system_bus_peek(&self, addr: u16) -> (r: (u8, u8))
        requires
            self.wf(),
        ensures
            r == self.bus_value(addr),
    {
        if self.prg_rom.len() == 0 || addr < 0x6000 {
            (0, 0xff)
        } else if addr < 0x8000 {
            (self.prg_ram[(addr - 0x6000) as usize], 0)
        } else {
            (self.prg_rom[(addr - 0x8000) as usize % self.prg_rom.len()], 0)
        }
    }

    /// A CPU read; NROM reads have no side effects.
    pub fn system_bus_read(&mut self, addr: u16) -> (r: (u8, u8))
        requires
            old(self).wf(),
        ensures
            r == old(self).bus_value(addr),
            *final(self) == *old(self),
    {
        self.system_bus_peek(addr)
    }

    /// A CPU write: only the work RAM takes it.
    pub fn system_bus_write(&mut self, addr: u16, data: u8)
        requires
            old(self).wf(),
        ensures
            final(self).wf(),
            final(self).prg_rom == old(self).prg_rom,
            final(self).chr == old(self).chr,
            final(self).chr_is_ram == old(self).chr_is_ram,
            final(self).prg_ram@ == if !old(self).is_empty() && 0x6000 <= addr < 0x8000 {
                old(self).prg_ram@.update(addr - 0x6000, data)
            } else {
                old(self).prg_ram@
            },
    {
        if self.prg_rom.len() != 0 && 0x6000 <= addr && addr < 0x8000 {
            self.prg_ram.set((addr - 0x6000) as usize, data);
        }
    }

    /// A PPU read of pattern memory (`addr` below 0x2000).
    pub fn ppu_read(&self, addr: u16) -> (r: u8)
        requires
            self.wf(),
            addr < 0x2000,
        ensures
            r == self.chr@[addr as int],
    {
        self.chr[addr as usize]
    }

    /// A PPU write of pattern memory; ignored when it is ROM.
    pub fn ppu_write(&mut self, addr: u16, data: u8)
        requires
            old(self).wf(),
            addr < 0x2000,
        ensures
            final(self).wf(),
            final(self).prg_rom == old(self).prg_rom,
            final(self).prg_ram == old(self).prg_ram,
            final(self).chr_is_ram == old(self).chr_is_ram,
            final(self).chr@ == if old(self).chr_is_ram {
                old(self).chr@.update(addr as int, data)
            } else {
                old(self).chr@
            },
    {
        if self.chr_is_ram {
            self.chr.set(addr as usize, data);
        }
    }
}

/// A copy of a byte vector.
pub fn copy_bytes(v: &Vec<u8>) -> (r: Vec<u8>)
    ensures
        r@ == v@,
{
    let r = v.clone();
    assert(r@ =~= v@);
    r
}

/// A vector of `n` zero bytes.
pub fn zeroed(n: usize) -> (r: Vec<u8>)
    ensures
        r@ == Seq::new(n as nat, |i: int| 0u8),
{
    let mut v: Vec<u8> = Vec::with_capacity(n);
    while v.len() < n
        invariant
            v.len() <= n,
            forall|i: int| 0 <= i < v.len() ==> v@[i] == 0u8,
        decreases n - v.len(),
    {
        v.push(0);
    }
    assert(v@ =~= Seq::new(n as nat, |i: int| 0u8));
    v
}

} // verus!
