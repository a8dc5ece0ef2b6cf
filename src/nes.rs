//! The top-level driver: the CPU clock is the master; before each CPU step
//! the PPU is caught up to three dots per CPU cycle, NMIs are delivered as
//! the PPU raises them, and a frame ends when the PPU finishes one or a
//! debug breakpoint stops it.
use vstd::prelude::*;
use crate::cartridge::Cartridge;
use crate::cpu::Cpu;
use crate::cpu::Interrupt;
use crate::cpu::INTERRUPT_ROOM;
use crate::framebuffer::Framebuffer;
use crate::framebuffer::FramebufferLease;
use crate::interface::EmulateControl;
use crate::interface::SystemBus;
use crate::interface::VideoBus;
use crate::ppu::Ppu;
use crate::ppu::PixelFormat;
use crate::ppu::lemma_frame_end_bounds;
use crate::ppu::FRAME_HEIGHT;
use crate::ppu::FRAME_WIDTH;
use crate::system::DebugOptions;
use crate::system::Model;
use crate::system::System;

verus! {

/// Passes of the frame loop one `tick_frame` may make; every pass runs at
/// least two CPU cycles (six dots), so a frame of either model (at most
/// 106392 dots) always completes well within it.
pub const MAX_FRAME_PASSES: u64 = 40000;
/// CPU cycles one pass may take at most: an NMI entry and a CPU step
/// (`INTERRUPT_ROOM` plus `STEP_ROOM`).
pub const PASS_ROOM: u64 = 1621;
/// CPU cycles one `tick_frame` may take at most (`MAX_FRAME_PASSES` passes).
pub const FRAME_ROOM: u64 = 64840000;

/// How a call of `tick_frame` ended.
#[derive(Clone, Copy, PartialEq, Eq, Debug, Structural)]
pub enum TickOutcome {
    /// The PPU completed a frame.
    FinishedFrame,
    /// A PPU debug breakpoint stopped stepping; the next call resumes.
    Breakpoint,
    /// The framebuffer was leased elsewhere; nothing was stepped.
    FramebufferBusy,
}

/// A save state: CPU registers, master clock and the system's architectural
/// state, without debugging aids.
pub struct NesSnapshot {
    pub cpu: Cpu,
    pub cpu_clock: u64,
    pub system: System,
}

pub struct Nes {
    /// Byte order of the frames this machine draws.
    pub pixel_format: PixelFormat,
    pub cpu: Cpu,
    /// CPU cycles run; the master clock.
    pub cpu_clock: u64,
    pub system: System,
}

impl Nes {
    pub open spec fn wf(&self) -> bool {
        &&& self.system.wf()
        &&& self.system.dmc_dma_request.is_none()
        &&& self.cpu_clock == self.system.apu.clock
        &&& self.system.ppu.clock <= 3 * self.cpu_clock
        &&& self.system.ppu.pixel_format == self.pixel_format
    }

    pub fn new(pixel_format: PixelFormat, model: Model, options: DebugOptions) -> (r: Nes)
        ensures
            r.wf(),
            r.pixel_format == pixel_format,
            r.system.ppu.clock == 0,
            r.system.ppu.is_powered_on(),
            r.system.apu == crate::apu::Apu::powered_on(0),
            r.cpu_clock == 0,
            r.cpu == (Cpu { pc: 0, a: 0, x: 0, y: 0, sp: 0, p: crate::cpu::FLAG_UNUSED }),
            r.system.model == model,
            r.system.cartridge.is_empty(),
            r.system.ppu.breakpoint.is_none(),
            r.system.debug.options == options,
    {
        Nes {
            pixel_format,
            cpu: Cpu::new(),
            cpu_clock: 0,
            system: System::new(model, pixel_format, Cartridge::none(), options),
        }
    }

    /// Captures the machine's state for a later `restore`.
    pub fn snapshot(&self) -> (r: NesSnapshot)
        requires
            self.wf(),
        ensures
            r.cpu == self.cpu,
            r.cpu_clock == self.cpu_clock,
            r.system.wf(),
            r.system.dmc_dma_request.is_none(),
            r.system.apu == self.system.apu,
            r.system.ppu.clock == self.system.ppu.clock,
            r.system.wram@ == self.system.wram@,
            r.system.cartridge.prg_rom@ == self.system.cartridge.prg_rom@,
            r.system.debug.watch_points@.len() == 0,
    {
        NesSnapshot { cpu: self.cpu, cpu_clock: self.cpu_clock, system: self.system.snapshot() }
    }

    /// Returns the machine to a captured state. The debugging aids and the
    /// framebuffer in flight stay as they are.
    pub fn restore(&mut self, snap: NesSnapshot)
        requires
            old(self).wf(),
            snap.system.wf(),
            snap.system.dmc_dma_request.is_none(),
            snap.system.ppu.pixel_format == old(self).pixel_format,
            snap.cpu_clock == snap.system.apu.clock,
            snap.system.ppu.clock <= 3 * snap.cpu_clock,
        ensures
            final(self).wf(),
            final(self).cpu == snap.cpu,
            final(self).cpu_clock == snap.cpu_clock,
            final(self).system == (System {
                debug: old(self).system.debug,
                framebuffer: old(self).system.framebuffer,
                ..snap.system
            }),
    {
        let mut system = snap.system;
        std::mem::swap(&mut system.debug, &mut self.system.debug);
        std::mem::swap(&mut system.framebuffer, &mut self.system.framebuffer);
        self.system = system;
        self.cpu = snap.cpu;
        self.cpu_clock = snap.cpu_clock;
    }

    /// Puts `cartridge` in the slot, or empties it.
    pub fn insert_cartridge(&mut self, cartridge: Option<Cartridge>)
        requires
            old(self).wf(),
            cartridge matches Some(c) ==> c.wf(),
        ensures
            final(self).wf(),
            cartridge matches Some(c) ==> final(self).system.cartridge == c,
            cartridge.is_none() ==> final(self).system.cartridge.is_empty(),
            final(self).system == (System { cartridge: final(self).system.cartridge, ..old(self).system }),
            final(self).cpu == old(self).cpu,
            final(self).cpu_clock == old(self).cpu_clock,
    {
        self.system.cartridge = match cartridge {
            Some(c) => c,
            None => Cartridge::none(),
        };
    }

    /// Runs the CPU's reset sequence on a freshly constructed machine.
    pub fn poweron(&mut self)
        requires
            old(self).wf(),
            old(self).system.has_room(INTERRUPT_ROOM as int),
        ensures
            final(self).wf(),
            old(self).cpu_clock + 7 <= final(self).cpu_clock <= old(self).cpu_clock + INTERRUPT_ROOM,
            old(self).system.dmc_quiet() ==> final(self).cpu_clock == old(self).cpu_clock + 7,
            final(self).cpu.p == old(self).cpu.p | crate::cpu::FLAG_INTERRUPT,
            final(self).system.wram == old(self).system.wram,
            final(self).cpu.sp == (if old(self).cpu.sp >= 3 {
                old(self).cpu.sp - 3
            } else {
                old(self).cpu.sp + 253
            }) as u8,
            !old(self).system.cartridge.is_empty() ==> final(self).cpu.pc == crate::cpu::rom_word(
                old(self).system.cartridge.prg_rom@,
                0xfffc,
            ),
    {
        self.cpu.interrupt(&mut self.system, Interrupt::Reset);
        self.cpu_clock = self.system.apu.clock;
    }

    /// The reset button: devices take the reset line, then the CPU runs its
    /// reset sequence.
    pub fn reset(&mut self)
        requires
            old(self).wf(),
            old(self).system.has_room(INTERRUPT_ROOM as int),
        ensures
            final(self).wf(),
            old(self).cpu_clock + 7 <= final(self).cpu_clock <= old(self).cpu_clock + INTERRUPT_ROOM,
            final(self).cpu.p == old(self).cpu.p | crate::cpu::FLAG_INTERRUPT,
            final(self).cpu.sp == (if old(self).cpu.sp >= 3 {
                old(self).cpu.sp - 3
            } else {
                old(self).cpu.sp + 253
            }) as u8,
            final(self).system.wram == old(self).system.wram,
            !old(self).system.cartridge.is_empty() ==> final(self).cpu.pc == crate::cpu::rom_word(
                old(self).system.cartridge.prg_rom@,
                0xfffc,
            ),
    {
        self.system.reset();
        self.cpu.interrupt(&mut self.system, Interrupt::Reset);
        self.cpu_clock = self.system.apu.clock;
    }

    pub fn system_mut(&mut self) -> (r: &mut System)
        ensures
            *r == old(self).system,
            *final(self) == (Nes { system: *final(r), ..*old(self) }),
    {
        &mut self.system
    }

    pub fn system_cpu(&mut self) -> (r: &mut Cpu)
        ensures
            *r == old(self).cpu,
            *final(self) == (Nes { cpu: *final(r), ..*old(self) }),
    {
        &mut self.cpu
    }

    pub fn system_ppu(&mut self) -> (r: &mut Ppu)
        ensures
            *r == old(self).system.ppu,
            *final(self) == (Nes { system: System { ppu: *final(r), ..old(self).system }, ..*old(self) }),
    {
        &mut self.system.ppu
    }

    /// Reads the PPU's address space without side effects.
    pub fn debug_read_ppu(&self, addr: u16) -> (r: u8)
        requires
            self.wf(),
        ensures
            addr % 0x4000 < 0x2000 ==> r == self.system.cartridge.chr@[addr as int % 0x4000],
            0x3f00 <= addr % 0x4000 ==> r == self.system.ppu.palette@[crate::ppu::palette_index(addr)],
            0x2000 <= addr % 0x4000 < 0x3f00 ==> r == self.system.ppu.nametables@[addr as int % 0x800],
    {
        self.system.ppu.vram_peek(&self.system.cartridge, addr)
    }

    /// A framebuffer of the size this machine draws.
    pub fn allocate_framebuffer(&self) -> (r: Framebuffer)
        ensures
            !r.is_leased(),
            r.width == FRAME_WIDTH && r.height == FRAME_HEIGHT,
            r.pixel_format == self.pixel_format,
            r.data.unwrap()@.len() == FRAME_WIDTH * FRAME_HEIGHT * 4,
    {
        Framebuffer::new(FRAME_WIDTH, FRAME_HEIGHT, self.pixel_format)
    }

    /// The frame loop, drawing into `self.system.framebuffer`: catch the
    /// PPU up to three dots per CPU cycle, stop at a completed frame or a
    /// breakpoint, deliver a raised NMI, then run one CPU step.
    fn run_frame(&mut self) -> (r: TickOutcome)
        requires
            old(self).wf(),
            old(self).system.has_room(FRAME_ROOM as int),
        ensures
            final(self).wf(),
            final(self).cpu_clock >= old(self).cpu_clock,
            final(self).system.ppu.breakpoint == old(self).system.ppu.breakpoint,
            r == TickOutcome::Breakpoint ==> old(self).system.ppu.breakpoint.is_some(),
            r == TickOutcome::FinishedFrame <==> final(self).system.ppu.frames
                > old(self).system.ppu.frames,
            r != TickOutcome::FramebufferBusy,
            final(self).system.ppu.clock >= old(self).system.ppu.clock,
            final(self).system.framebuffer.len() == old(self).system.framebuffer.len(),
    {
        let ghost bp = self.system.ppu.breakpoint;
        let ghost start = self.cpu_clock;
        let ghost mark0 = self.system.ppu.frame_mark();
        proof {
            lemma_frame_end_bounds(self.system.ppu);
        }
        let start_frames = self.system.ppu.frames;
        let mut passes: u64 = 0;
        while passes < MAX_FRAME_PASSES
            invariant
                self.wf(),
                passes <= 17732,
                self.system.has_room(((MAX_FRAME_PASSES - passes) * PASS_ROOM) as int),
                self.system.ppu.breakpoint == bp,
                bp == old(self).system.ppu.breakpoint,
                start == old(self).cpu_clock,
                start_frames == old(self).system.ppu.frames,
                self.system.ppu.frames == start_frames,
                self.system.ppu.frame_mark() == mark0,
                mark0 <= 3 * start + 106392,
                3 * self.cpu_clock >= 3 * start + 6 * passes,
                self.cpu_clock >= start,
                self.system.ppu.clock >= old(self).system.ppu.clock,
                self.system.framebuffer.len() == old(self).system.framebuffer.len(),
            decreases MAX_FRAME_PASSES - passes,
        {
            let expected_ppu_clock = self.cpu_clock * 3;
            let caught_up = self.system.catch_up_ppu_drift(expected_ppu_clock);
            if self.system.ppu.frames != start_frames {
                return TickOutcome::FinishedFrame;
            }
            if !caught_up || self.system.ppu.breakpoint_hit {
                self.system.ppu.breakpoint_hit = false;
                return TickOutcome::Breakpoint;
            }
            proof {
                lemma_frame_end_bounds(self.system.ppu);
            }
            if self.system.ppu.nmi_pending {
                self.system.ppu.nmi_pending = false;
                self.cpu.interrupt(&mut self.system, Interrupt::Nmi);
                self.cpu_clock = self.system.apu.clock;
            }
            if self.system.ppu.frames != start_frames {
                return TickOutcome::FinishedFrame;
            }
            self.cpu.step(&mut self.system);
            self.cpu_clock = self.system.apu.clock;
            if self.system.ppu.frames != start_frames {
                return TickOutcome::FinishedFrame;
            }
            passes = passes + 1;
        }
        // Not reached: the invariant keeps `passes` far below the limit.
        TickOutcome::FinishedFrame
    }

    /// Emulates until the PPU completes a frame, drawing it into
    /// `framebuffer`. When the framebuffer is leased elsewhere nothing is
    /// stepped and `FramebufferBusy` comes back: try again on the next tick.
    pub fn tick_frame(&mut self, framebuffer: &mut Framebuffer) -> (r: TickOutcome)
        requires
            old(self).wf(),
            old(self).system.has_room(FRAME_ROOM as int),
        ensures
            final(self).wf(),
            (r == TickOutcome::FramebufferBusy) == old(framebuffer).is_leased(),
            r == TickOutcome::FramebufferBusy ==> *final(self) == *old(self),
            final(framebuffer).is_leased() == old(framebuffer).is_leased(),
            final(framebuffer).width == old(framebuffer).width,
            final(framebuffer).height == old(framebuffer).height,
            r != TickOutcome::FramebufferBusy ==> final(framebuffer).data.unwrap()@.len()
                == old(framebuffer).data.unwrap()@.len(),
            final(self).cpu_clock >= old(self).cpu_clock,
            r == TickOutcome::Breakpoint ==> old(self).system.ppu.breakpoint.is_some(),
            r == TickOutcome::FinishedFrame <==> final(self).system.ppu.frames
                > old(self).system.ppu.frames,
            !old(framebuffer).is_leased() && old(self).system.ppu.breakpoint.is_none()
                ==> r == TickOutcome::FinishedFrame,
            final(self).system.ppu.clock >= old(self).system.ppu.clock,
            final(self).system.ppu.clock <= 3 * final(self).cpu_clock,
    {
        match framebuffer.rent_data() {
            None => TickOutcome::FramebufferBusy,
            Some(lease) => {
                let mut pixels = lease.data;
                std::mem::swap(&mut self.system.framebuffer, &mut pixels);
                let r = self.run_frame();
                std::mem::swap(&mut self.system.framebuffer, &mut pixels);
                framebuffer.release(FramebufferLease { data: pixels });
                r
            },
        }
    }
}

impl SystemBus for Nes {
    open spec fn bus_ready(&self) -> bool {
        self.bus_ready_for(1)
    }

    open spec fn bus_peek(&self, addr: u16) -> u8 {
        self.system.peek_value(addr)
    }

    /// WRAM, the OAM DMA page and a quiet DMC take the write as
    /// `System::cpu_write` states it; the controller ports and the latch do
    /// too unless a DMC fetch follows.
    open spec fn bus_write_effect(&self, after: Nes, addr: u16, data: u8) -> bool {
        &&& after.wf()
        &&& after.system.wram@ == match crate::bus::write_target(addr) {
            crate::bus::WriteTarget::Wram(i) => self.system.wram@.update(i as int, data),
            _ => self.system.wram@,
        }
        &&& after.system.oam_dma_page == if crate::bus::write_target(addr)
            == crate::bus::WriteTarget::OamDma {
            Some(data)
        } else {
            self.system.oam_dma_page
        }
        &&& (self.system.dmc_quiet() && addr != 0x4015 ==> {
            &&& after.system.open_bus_value == data
            &&& self.system.ports_after_write(after.system, addr, data)
            &&& after.cpu_clock == self.cpu_clock + 1
        })
    }

    open spec fn bus_ready_for(&self, n: int) -> bool {
        self.wf() && self.system.has_room(3 * n)
    }

    /// A CPU data read; the master clock follows the cycles it took.
    fn read_u8(&mut self, addr: u16) -> (r: u8) {
        let r = self.system.cpu_read(addr);
        self.system.serve_dmc_dma();
        self.cpu_clock = self.system.apu.clock;
        r
    }

    /// A CPU write; the master clock follows the cycles it took.
    fn write_u8(&mut self, addr: u16, data: u8) {
        self.system.cpu_write(addr, data);
        self.system.serve_dmc_dma();
        self.cpu_clock = self.system.apu.clock;
    }
}

impl VideoBus for Nes {
    open spec fn video_ready(&self) -> bool {
        self.wf()
    }

    open spec fn video_value(&self, addr: u16) -> u8 {
        if addr < 0x2000 {
            self.system.cartridge.chr@[addr as int]
        } else if addr >= 0x3f00 {
            self.system.ppu.palette@[crate::ppu::palette_index(addr)]
        } else {
            self.system.ppu.nametables@[addr as int % 0x800]
        }
    }

    open spec fn video_writable(&self, addr: u16) -> bool {
        addr >= 0x2000 || self.system.cartridge.chr_is_ram
    }

    fn read_video_u8(&mut self, addr: u16) -> (r: u8) {
        self.debug_read_ppu(addr)
    }

    fn write_video_u8(&mut self, addr: u16, data: u8) {
        self.system.ppu.vram_write(&mut self.system.cartridge, addr, data);
    }
}

impl EmulateControl for Nes {
    open spec fn can_power_on(&self) -> bool {
        self.wf() && self.system.has_room(INTERRUPT_ROOM as int)
    }

    open spec fn poweron_effect(&self, after: Nes) -> bool {
        &&& after.wf()
        &&& after.cpu.sp == (if self.cpu.sp >= 3 { self.cpu.sp - 3 } else { self.cpu.sp + 253 }) as u8
        &&& after.cpu.p == self.cpu.p | crate::cpu::FLAG_INTERRUPT
        &&& (self.system.dmc_quiet() ==> after.cpu_clock == self.cpu_clock + 7)
        &&& (!self.system.cartridge.is_empty() ==> after.cpu.pc == crate::cpu::rom_word(
            self.system.cartridge.prg_rom@,
            0xfffc,
        ))
    }

    fn poweron(&mut self) {
        Nes::poweron(self);
    }
}

} // verus!
