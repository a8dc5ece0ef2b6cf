//! The 6502 core as the orchestrator sees it: interrupt entry, instruction
//! stepping that reports the cycles it took, OAM DMA, and serving the APU's
//! DMA requests before each next bus access. Every cycle goes through the
//! bus, so PPU and APU advance with it. The instructions modelled are NOP,
//! JMP absolute, LDA/LDX immediate, LDA/STA absolute, INX, SEI and CLI;
//! other opcodes execute as two-cycle no-ops.
use vstd::prelude::*;
use crate::bus::open_bus_fill;
use crate::system::System;
use crate::system::lemma_advanced_trans;

verus! {

pub const FLAG_CARRY: u8 = 0x01;
pub const FLAG_ZERO: u8 = 0x02;
pub const FLAG_INTERRUPT: u8 = 0x04;
pub const FLAG_BREAK: u8 = 0x10;
pub const FLAG_UNUSED: u8 = 0x20;
pub const FLAG_NEGATIVE: u8 = 0x80;
/// CPU cycles one `step` may take at most: an interrupt entry (7 bus
/// cycles) or an instruction, then an OAM DMA (513), each bus cycle
/// possibly followed by a two-cycle DMC DMA.
pub const STEP_ROOM: u64 = 1600;
/// CPU cycles an interrupt entry may take at most.
pub const INTERRUPT_ROOM: u64 = 21;

#[derive(Clone, Copy, PartialEq, Eq, Debug, Structural)]
pub enum Interrupt {
    Reset,
    Nmi,
    Irq,
}

pub open spec fn vector_address(kind: Interrupt) -> u16 {
    match kind {
        Interrupt::Nmi => 0xfffa,
        Interrupt::Reset => 0xfffc,
        Interrupt::Irq => 0xfffe,
    }
}

/// CPU cycles an instruction takes when no DMA steals any (STA excepted,
/// whose write may start one).
pub open spec fn base_cycles(op: u8) -> u64 {
    if op == 0x4c {
        3
    } else if op == 0xad {
        4
    } else {
        2
    }
}

/// The byte a cartridge with program ROM `rom` holds at `addr` (>= 0x8000).
pub open spec fn rom_byte(rom: Seq<u8>, addr: u16) -> u8 {
    rom[(addr - 0x8000) % (rom.len() as int)]
}

/// The little-endian word at `addr` in program ROM.
pub open spec fn rom_word(rom: Seq<u8>, addr: u16) -> u16 {
    (rom_byte(rom, addr) as u16) | ((rom_byte(rom, (addr + 1) as u16) as u16) << 8u16)
}

proof fn lemma_driven_fully(v: u8, latch: u8)
    ensures
        open_bus_fill(v, 0, latch) == v,
{
    assert((v & !0u8) | (latch & 0u8) == v) by (bit_vector);
}

/// Program ROM reads give the ROM byte whatever the latch holds.
proof fn lemma_rom_read(s: System, addr: u16)
    requires
        s.wf(),
        !s.cartridge.is_empty(),
        addr >= 0x8000,
    ensures
        s.peek_value(addr) == rom_byte(s.cartridge.prg_rom@, addr),
{
    lemma_driven_fully(rom_byte(s.cartridge.prg_rom@, addr), s.open_bus_value);
}

/// A data read, then any DMC DMA the APU asked for meanwhile.
fn bus_read(sys: &mut System, addr: u16) -> (r: u8)
    requires
        old(sys).wf(),
        old(sys).dmc_dma_request.is_none(),
        old(sys).has_room(3),
    ensures
        old(sys).advanced(*final(sys), final(sys).apu.clock - old(sys).apu.clock),
        old(sys).apu.clock + 1 <= final(sys).apu.clock <= old(sys).apu.clock + 3,
        final(sys).wram == old(sys).wram,
        final(sys).oam_dma_page == old(sys).oam_dma_page,
        old(sys).dmc_quiet() ==> final(sys).dmc_quiet() && final(sys).apu.clock == old(sys).apu.clock + 1,
        r == old(sys).peek_value(addr),
{
    let v = sys.cpu_read(addr);
    sys.serve_dmc_dma();
    v
}

/// An instruction fetch, then any DMC DMA.
fn bus_fetch(sys: &mut System, addr: u16) -> (r: u8)
    requires
        old(sys).wf(),
        old(sys).dmc_dma_request.is_none(),
        old(sys).has_room(3),
    ensures
        old(sys).advanced(*final(sys), final(sys).apu.clock - old(sys).apu.clock),
        old(sys).apu.clock + 1 <= final(sys).apu.clock <= old(sys).apu.clock + 3,
        final(sys).wram == old(sys).wram,
        final(sys).oam_dma_page == old(sys).oam_dma_page,
        old(sys).dmc_quiet() ==> final(sys).dmc_quiet() && final(sys).apu.clock == old(sys).apu.clock + 1,
        r == old(sys).peek_value(addr),
{
    let v = sys.cpu_fetch(addr);
    sys.serve_dmc_dma();
    v
}

/// A dummy read, then any DMC DMA.
fn bus_dummy_read(sys: &mut System, addr: u16)
    requires
        old(sys).wf(),
        old(sys).dmc_dma_request.is_none(),
        old(sys).has_room(3),
    ensures
        old(sys).advanced(*final(sys), final(sys).apu.clock - old(sys).apu.clock),
        old(sys).apu.clock + 1 <= final(sys).apu.clock <= old(sys).apu.clock + 3,
        final(sys).wram == old(sys).wram,
        final(sys).oam_dma_page == old(sys).oam_dma_page,
        old(sys).dmc_quiet() ==> final(sys).dmc_quiet() && final(sys).apu.clock == old(sys).apu.clock + 1,
{
    sys.dummy_cpu_read(addr);
    sys.serve_dmc_dma();
}

/// A write, then any DMC DMA.
fn bus_write(sys: &mut System, addr: u16, data: u8)
    requires
        old(sys).wf(),
        old(sys).dmc_dma_request.is_none(),
        old(sys).has_room(3),
    ensures
        old(sys).advanced(*final(sys), final(sys).apu.clock - old(sys).apu.clock),
        old(sys).apu.clock + 1 <= final(sys).apu.clock <= old(sys).apu.clock + 3,
        final(sys).wram@ == match crate::bus::write_target(addr) {
            crate::bus::WriteTarget::Wram(i) => old(sys).wram@.update(i as int, data),
            _ => old(sys).wram@,
        },
{
    sys.cpu_write(addr, data);
    sys.serve_dmc_dma();
}

#[derive(Clone, Copy, PartialEq, Eq, Debug, Structural)]
pub struct Cpu {
    pub pc: u16,
    pub a: u8,
    pub x: u8,
    pub y: u8,
    pub sp: u8,
    pub p: u8,
}

impl Cpu {
    /// Registers before the first reset.
    pub fn new() -> (r: Cpu)
        ensures
            r == (Cpu { pc: 0, a: 0, x: 0, y: 0, sp: 0, p: FLAG_UNUSED }),
    {
        Cpu { pc: 0, a: 0, x: 0, y: 0, sp: 0, p: FLAG_UNUSED }
    }

    /// Whether an IRQ is taken at this instruction boundary.
    pub open spec fn takes_irq(&self, sys: System) -> bool {
        (sys.apu.frame_irq || sys.apu.dmc_irq || sys.cartridge.irq_asserted()) && self.p
            & FLAG_INTERRUPT == 0
    }

    /// Enters an interrupt: two dummy reads, then either three pushes (PC
    /// and status) or, for RESET, three stack reads in their place that only
    /// move the stack pointer down by three; sets the interrupt-disable flag
    /// and loads PC from the kind's vector.
    pub fn interrupt(&mut self, sys: &mut System, kind: Interrupt)
        requires
            old(sys).wf(),
            old(sys).dmc_dma_request.is_none(),
            old(sys).has_room(INTERRUPT_ROOM as int),
        ensures
            old(sys).advanced(*final(sys), final(sys).apu.clock - old(sys).apu.clock),
            old(sys).apu.clock + 7 <= final(sys).apu.clock <= old(sys).apu.clock + INTERRUPT_ROOM,
            kind == Interrupt::Reset && old(sys).dmc_quiet() ==> final(sys).apu.clock
                == old(sys).apu.clock + 7,
            kind == Interrupt::Reset ==> final(sys).wram == old(sys).wram,
            kind != Interrupt::Reset ==> final(sys).wram@ == old(sys).wram@.update(
                0x100 + old(self).sp as int,
                (old(self).pc / 256) as u8,
            ).update(0x100 + (if old(self).sp >= 1 { old(self).sp - 1 } else { 255 }) as int, (old(self).pc % 256) as u8).update(
                0x100 + (if old(self).sp >= 2 { old(self).sp - 2 } else { old(self).sp + 254 }) as int,
                (old(self).p | FLAG_UNUSED) & !FLAG_BREAK,
            ),
            final(self).p == old(self).p | FLAG_INTERRUPT,
            final(self).sp == (if old(self).sp >= 3 { old(self).sp - 3 } else { old(self).sp + 253 }) as u8,
            final(self).a == old(self).a && final(self).x == old(self).x && final(self).y
                == old(self).y,
            !old(sys).cartridge.is_empty() ==> final(self).pc == rom_word(
                old(sys).cartridge.prg_rom@,
                vector_address(kind),
            ),
    {
        let ghost s0 = *sys;
        bus_dummy_read(sys, self.pc);
        bus_dummy_read(sys, self.pc);
        let ghost s1 = *sys;
        proof { lemma_advanced_trans(s0, s1, s1, s1.apu.clock - s0.apu.clock, 0); }
        match kind {
            Interrupt::Reset => {
                bus_dummy_read(sys, 0x0100 | (self.sp as u16));
                bus_dummy_read(sys, 0x0100 | (self.sp.wrapping_sub(1) as u16));
                bus_dummy_read(sys, 0x0100 | (self.sp.wrapping_sub(2) as u16));
            },
            _ => {
                let sp = self.sp;
                assert(0x0100u16 | (sp as u16) == 0x100 + sp as u16) by (bit_vector);
                assert(0x0100u16 | (sp.wrapping_sub(1) as u16) == 0x100 + sp.wrapping_sub(1) as u16) by (bit_vector);
                assert(0x0100u16 | (sp.wrapping_sub(2) as u16) == 0x100 + sp.wrapping_sub(2) as u16) by (bit_vector);
                bus_write(sys, 0x0100 | (self.sp as u16), (self.pc / 256) as u8);
                bus_write(sys, 0x0100 | (self.sp.wrapping_sub(1) as u16), (self.pc % 256) as u8);
                bus_write(sys, 0x0100 | (self.sp.wrapping_sub(2) as u16), (self.p | FLAG_UNUSED) & !FLAG_BREAK);
            },
        }
        self.sp = self.sp.wrapping_sub(3);
        self.p = self.p | FLAG_INTERRUPT;
        let vector: u16 = match kind {
            Interrupt::Nmi => 0xfffa,
            Interrupt::Reset => 0xfffc,
            Interrupt::Irq => 0xfffe,
        };
        let ghost s2 = *sys;
        let lo = bus_read(sys, vector);
        let ghost s3 = *sys;
        let hi = bus_read(sys, vector + 1);
        proof {
            if !s0.cartridge.is_empty() {
                lemma_rom_read(s2, vector);
                lemma_rom_read(s3, (vector + 1) as u16);
            }
        }
        self.pc = (lo as u16) | ((hi as u16) << 8u16);
    }

    /// Copies page `page` of the CPU address space into OAM through 0x2004:
    /// one halt cycle, then 256 read/write pairs.
    fn oam_dma(&mut self, sys: &mut System, page: u8)
        requires
            old(sys).wf(),
            old(sys).dmc_dma_request.is_none(),
            old(sys).has_room(1539),
        ensures
            old(sys).advanced(*final(sys), final(sys).apu.clock - old(sys).apu.clock),
            old(sys).apu.clock + 513 <= final(sys).apu.clock <= old(sys).apu.clock + 1539,
            *final(self) == *old(self),
    {
        bus_dummy_read(sys, self.pc);
        let ghost s0 = *old(sys);
        let base: u16 = (page as u16) << 8u16;
        let mut i: u16 = 0;
        while i < 256
            invariant
                i <= 256,
                s0.wf(),
                s0.advanced(*sys, sys.apu.clock - s0.apu.clock),
                s0.apu.clock + 1 + 2 * i <= sys.apu.clock <= s0.apu.clock + 3 + 6 * i,
                s0.has_room(1539),
            decreases 256 - i,
        {
            let ghost before = *sys;
            let v = bus_read(sys, base | i);
            let ghost mid = *sys;
            bus_write(sys, 0x2004, v);
            proof {
                lemma_advanced_trans(s0, before, mid, before.apu.clock - s0.apu.clock, mid.apu.clock - before.apu.clock);
                lemma_advanced_trans(s0, mid, *sys, mid.apu.clock - s0.apu.clock, sys.apu.clock - mid.apu.clock);
            }
            i = i + 1;
        }
    }

    fn set_zn(&mut self, v: u8)
        ensures
            final(self).p == (old(self).p & !(FLAG_ZERO | FLAG_NEGATIVE)) | (if v == 0 {
                FLAG_ZERO
            } else {
                0
            }) | (v & FLAG_NEGATIVE),
            final(self).pc == old(self).pc && final(self).a == old(self).a && final(self).x
                == old(self).x && final(self).y == old(self).y && final(self).sp == old(self).sp,
    {
        let z: u8 = if v == 0 { FLAG_ZERO } else { 0 };
        self.p = (self.p & !(FLAG_ZERO | FLAG_NEGATIVE)) | z | (v & FLAG_NEGATIVE);
    }

    /// Runs one instruction (or takes a pending IRQ), then any OAM DMA the
    /// instruction started. Returns the CPU cycles it took, DMA included.
    pub fn step(&mut self, sys: &mut System) -> (cycles: u64)
        requires
            old(sys).wf(),
            old(sys).dmc_dma_request.is_none(),
            old(sys).has_room(STEP_ROOM as int),
        ensures
            old(sys).advanced(*final(sys), cycles as int),
            2 <= cycles <= STEP_ROOM,
            !old(self).takes_irq(*old(sys)) && old(sys).oam_dma_page.is_none()
                && old(sys).peek_value(old(self).pc) == 0xea ==> *final(self) == (Cpu {
                pc: (old(self).pc + 1) as u16,
                ..*old(self)
            }) || old(self).pc == 0xffff,
            !old(self).takes_irq(*old(sys)) && old(sys).oam_dma_page.is_none()
                && old(sys).peek_value(old(self).pc) == 0x4c && !old(sys).cartridge.is_empty()
                && 0x8000 <= old(self).pc < 0xfffd ==> final(self).pc == rom_word(
                old(sys).cartridge.prg_rom@,
                (old(self).pc + 1) as u16,
            ),
            old(self).takes_irq(*old(sys)) && !old(sys).cartridge.is_empty() ==> final(self).pc
                == rom_word(old(sys).cartridge.prg_rom@, 0xfffe),
            !old(self).takes_irq(*old(sys)) && old(sys).oam_dma_page.is_none() && old(sys).dmc_quiet()
                && old(sys).peek_value(old(self).pc) != 0x8d ==> cycles == base_cycles(
                old(sys).peek_value(old(self).pc),
            ),
            !old(self).takes_irq(*old(sys)) && old(sys).peek_value(old(self).pc) == 0xa9
                && !old(sys).cartridge.is_empty() && 0x8000 <= old(self).pc < 0xffff
                ==> final(self).a == rom_byte(old(sys).cartridge.prg_rom@, (old(self).pc + 1) as u16),
            !old(self).takes_irq(*old(sys)) && old(sys).peek_value(old(self).pc) == 0x78
                ==> final(self).p == old(self).p | FLAG_INTERRUPT,
            !old(self).takes_irq(*old(sys)) && old(sys).peek_value(old(self).pc) == 0x58
                ==> final(self).p == old(self).p & !FLAG_INTERRUPT,
    {
        let ghost s0 = *old(sys);
        let start = sys.apu.clock;
        if sys.irq_line() && self.p & FLAG_INTERRUPT == 0 {
            self.interrupt(sys, Interrupt::Irq);
        } else {
            let op = bus_fetch(sys, self.pc);
            let ghost s1 = *sys;
            let pc = self.pc;
            self.pc = self.pc.wrapping_add(1);
            if op == 0x4c || op == 0xad || op == 0x8d {
                let lo = bus_fetch(sys, self.pc);
                let ghost s2 = *sys;
                let hi = bus_fetch(sys, self.pc.wrapping_add(1));
                proof {
                    if !s0.cartridge.is_empty() && 0x8000 <= pc < 0xfffd {
                        lemma_rom_read(s1, (pc + 1) as u16);
                        lemma_rom_read(s2, (pc + 2) as u16);
                    }
                }
                let addr = (lo as u16) | ((hi as u16) << 8u16);
                self.pc = self.pc.wrapping_add(2);
                if op == 0x4c {
                    self.pc = addr;
                } else if op == 0xad {
                    let v = bus_read(sys, addr);
                    self.a = v;
                    self.set_zn(v);
                } else {
                    bus_write(sys, addr, self.a);
                }
            } else if op == 0xa9 || op == 0xa2 {
                proof {
                    if !s0.cartridge.is_empty() && 0x8000 <= pc < 0xffff {
                        lemma_rom_read(s1, (pc + 1) as u16);
                    }
                }
                let v = bus_fetch(sys, self.pc);
                self.pc = self.pc.wrapping_add(1);
                if op == 0xa9 {
                    self.a = v;
                } else {
                    self.x = v;
                }
                self.set_zn(v);
            } else {
                bus_dummy_read(sys, self.pc);
                if op == 0xe8 {
                    self.x = self.x.wrapping_add(1);
                    let x = self.x;
                    self.set_zn(x);
                } else if op == 0x78 {
                    self.p = self.p | FLAG_INTERRUPT;
                } else if op == 0x58 {
                    self.p = self.p & !FLAG_INTERRUPT;
                }
            }
        }
        if let Some(page) = sys.oam_dma_page.take() {
            self.oam_dma(sys, page);
        }
        sys.apu.clock - start
    }
}

} // verus!
