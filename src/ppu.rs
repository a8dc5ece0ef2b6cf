//! The picture unit as the bus and the clock see it: the dot/line counter with
//! vertical blank and NMI, the eight memory-mapped registers with their own
//! open-bus latch, OAM, nametable and palette memory, and backdrop output
//! into a leased framebuffer.
use vstd::prelude::*;
use crate::cartridge::Cartridge;
use crate::cartridge::copy_bytes;
use crate::cartridge::zeroed;

verus! {

pub const DOTS_PER_LINE: u16 = 341;
pub const NTSC_LINES: u16 = 262;
pub const PAL_LINES: u16 = 312;
/// The line on whose second dot vertical blank begins.
pub const VBLANK_LINE: u16 = 241;
pub const FRAME_WIDTH: usize = 256;
pub const FRAME_HEIGHT: usize = 240;
/// Bytes in one RGBA frame.
pub const FRAME_BYTES: usize = 245760;

/// Byte order of the pixels written into a frame.
#[derive(Clone, Copy, PartialEq, Eq, Debug, Structural)]
pub enum PixelFormat {
    Rgba8888,
    Bgra8888,
}

/// What one dot of stepping produced (`Idle`: nothing of note).
#[derive(Clone, Copy, PartialEq, Eq, Debug, Structural)]
pub enum PpuStatus {
    Idle,
    /// The last dot of the frame elapsed.
    FinishedFrame,
    /// The NMI output went high.
    RaiseNmi,
}

#[derive(Clone, Debug)]
pub struct Ppu {
    /// Dots stepped since power-on.
    pub clock: u64,
    /// Byte order of the pixels this unit writes.
    pub pixel_format: PixelFormat,
    pub dot: u16,
    pub line: u16,
    pub lines_per_frame: u16,
    pub ctrl: u8,
    pub mask: u8,
    pub vblank: bool,
    pub sprite_zero_hit: bool,
    pub sprite_overflow: bool,
    /// The PPU's own data-bus latch: bits a register does not drive read from it.
    pub io_latch: u8,
    pub oam_addr: u8,
    pub oam: Vec<u8>,
    pub vram_addr: u16,
    pub temp_addr: u16,
    pub fine_x: u8,
    pub write_toggle: bool,
    pub read_buffer: u8,
    pub nametables: Vec<u8>,
    pub palette: Vec<u8>,
    /// The NMI output (vertical blank while NMI generation is enabled).
    pub nmi_interrupt_raised: bool,
    /// Set when the NMI output goes high; the orchestrator takes it.
    pub nmi_pending: bool,
    /// Frames completed since power-on.
    pub frames: u64,
    /// A debug stop before the dot at (line, dot).
    pub breakpoint: Option<(u16, u16)>,
    /// Stepping stopped at the breakpoint; the next step goes past it.
    pub at_breakpoint: bool,
    /// Sticky: set when the breakpoint stopped stepping; the orchestrator
    /// takes it.
    pub breakpoint_hit: bool,
}

pub open spec fn nmi_output(ctrl: u8, vblank: bool) -> bool {
    vblank && ctrl & 0x80 != 0
}

/// Index into the 32-byte palette for a PPU address in 0x3F00..0x4000;
/// the backdrop entries of the sprite palettes mirror those of the background.
pub open spec fn palette_index(addr: u16) -> int {
    let i = addr as int % 32;
    if i >= 16 && i % 4 == 0 { i - 16 } else { i }
}

impl Ppu {
    pub open spec fn wf(&self) -> bool {
        &&& self.dot < DOTS_PER_LINE
        &&& (self.lines_per_frame == NTSC_LINES || self.lines_per_frame == PAL_LINES)
        &&& self.line < self.lines_per_frame
        &&& self.oam.len() == 256
        &&& self.nametables.len() == 0x800
        &&& self.palette.len() == 32
        &&& self.vram_addr < 0x4000
        &&& self.temp_addr < 0x8000
        &&& self.nmi_interrupt_raised == nmi_output(self.ctrl, self.vblank)
        &&& (self.breakpoint.is_none() ==> !self.breakpoint_hit && !self.at_breakpoint)
        &&& self.frames <= self.clock
    }

    /// PPUSTATUS: three flags over the latch's low five bits.
    pub open spec fn status_value(&self) -> u8 {
        (if self.vblank { 0x80u8 } else { 0u8 }) | (if self.sprite_zero_hit { 0x40u8 } else {
            0u8
        }) | (if self.sprite_overflow { 0x20u8 } else { 0u8 }) | (self.io_latch & 0x1f)
    }

    /// What a read of register `reg` (0..8) gives. Write-only registers give
    /// the latch; palette reads drive six bits.
    pub open spec fn register_value(&self, reg: u8) -> u8 {
        if reg == 2 {
            self.status_value()
        } else if reg == 4 {
            self.oam@[self.oam_addr as int]
        } else if reg == 7 {
            if self.vram_addr >= 0x3f00 {
                (self.palette@[palette_index(self.vram_addr)] & 0x3f) | (self.io_latch & 0xc0)
            } else {
                self.read_buffer
            }
        } else {
            self.io_latch
        }
    }

    /// The state after a read of register `reg`, with pattern memory `chr`.
    pub open spec fn after_register_read(&self, reg: u8, chr: Seq<u8>) -> Ppu {
        let v = self.register_value(reg);
        if reg == 2 {
            Ppu { vblank: false, write_toggle: false, nmi_interrupt_raised: false, io_latch: v, ..*self }
        } else if reg == 7 {
            let a = self.vram_addr;
            Ppu {
                read_buffer: if a < 0x2000 {
                    chr[a as int]
                } else {
                    self.nametables@[a as int % 0x800]
                },
                vram_addr: ((a + self.vram_increment()) % 0x4000) as u16,
                io_latch: v,
                ..*self
            }
        } else {
            Ppu { io_latch: v, ..*self }
        }
    }

    /// The registers after a write of `data` to register `reg`; the three
    /// memories are left as they are here (see `system_bus_write`).
    pub open spec fn regs_after_write(&self, reg: u8, data: u8) -> Ppu {
        let t = self.temp_addr;
        let p = Ppu { io_latch: data, ..*self };
        if reg == 0 {
            let raised = self.vblank && data & 0x80 != 0;
            Ppu {
                ctrl: data,
                temp_addr: (t & 0x73ff) | (((data & 0x03) as u16) << 10u16),
                nmi_interrupt_raised: raised,
                nmi_pending: self.nmi_pending || (!self.nmi_interrupt_raised && raised),
                ..p
            }
        } else if reg == 1 {
            Ppu { mask: data, ..p }
        } else if reg == 3 {
            Ppu { oam_addr: data, ..p }
        } else if reg == 4 {
            Ppu { oam_addr: if self.oam_addr == 255 { 0 } else { (self.oam_addr + 1) as u8 }, ..p }
        } else if reg == 5 {
            if !self.write_toggle {
                Ppu {
                    fine_x: data & 0x07,
                    temp_addr: (t & 0x7fe0) | ((data >> 3u8) as u16),
                    write_toggle: true,
                    ..p
                }
            } else {
                Ppu {
                    temp_addr: (t & 0x0c1f) | (((data & 0x07) as u16) << 12u16) | (((data & 0xf8)
                        as u16) << 2u16),
                    write_toggle: false,
                    ..p
                }
            }
        } else if reg == 6 {
            if !self.write_toggle {
                Ppu {
                    temp_addr: (t & 0x00ff) | (((data & 0x3f) as u16) << 8u16),
                    write_toggle: true,
                    ..p
                }
            } else {
                Ppu {
                    temp_addr: (t & 0x3f00) | (data as u16),
                    vram_addr: (t & 0x3f00) | (data as u16),
                    write_toggle: false,
                    ..p
                }
            }
        } else if reg == 7 {
            Ppu { vram_addr: ((self.vram_addr + self.vram_increment()) % 0x4000) as u16, ..p }
        } else {
            p
        }
    }

    /// Whether a write of `data` to register `reg` takes the memories from
    /// `self` to `after`: OAMDATA stores at the OAM address, PPUDATA stores
    /// at the VRAM address (nametable or palette; pattern memory is the
    /// cartridge's).
    pub open spec fn memories_after_write(&self, after: Ppu, reg: u8, data: u8) -> bool {
        &&& after.oam@ == if reg == 4 {
            self.oam@.update(self.oam_addr as int, data)
        } else {
            self.oam@
        }
        &&& after.nametables@ == if reg == 7 && 0x2000 <= self.vram_addr < 0x3f00 {
            self.nametables@.update(self.vram_addr as int % 0x800, data)
        } else {
            self.nametables@
        }
        &&& after.palette@ == if reg == 7 && 0x3f00 <= self.vram_addr {
            self.palette@.update(palette_index(self.vram_addr), data)
        } else {
            self.palette@
        }
    }

    pub open spec fn vram_increment(&self) -> u16 {
        if self.ctrl & 0x04 != 0 { 32 } else { 1 }
    }

    /// Frame position of the next dot to step.
    pub open spec fn position(&self) -> (u16, u16) {
        (self.line, self.dot)
    }

    pub open spec fn halts_here(&self) -> bool {
        self.breakpoint == Some(self.position()) && !self.at_breakpoint
    }

    /// Every register, latch and memory at its power-on value (the clock,
    /// frame count, breakpoint and line count are not covered).
    pub open spec fn is_powered_on(&self) -> bool {
        &&& self.dot == 0 && self.line == 0
        &&& self.ctrl == 0 && self.mask == 0
        &&& !self.vblank && !self.sprite_zero_hit && !self.sprite_overflow
        &&& self.io_latch == 0 && self.oam_addr == 0
        &&& self.oam@ == Seq::new(256, |i: int| 0u8)
        &&& self.vram_addr == 0 && self.temp_addr == 0 && self.fine_x == 0
        &&& !self.write_toggle && self.read_buffer == 0
        &&& self.nametables@ == Seq::new(0x800, |i: int| 0u8)
        &&& self.palette@ == Seq::new(32, |i: int| 0u8)
        &&& !self.nmi_interrupt_raised && !self.nmi_pending
        &&& !self.at_breakpoint && !self.breakpoint_hit
    }

    pub fn new(pal: bool, pixel_format: PixelFormat) -> (r: Ppu)
        ensures
            r.pixel_format == pixel_format,
            r.wf(),
            r.is_powered_on(),
            r.clock == 0,
            r.dot == 0 && r.line == 0,
            r.lines_per_frame == if pal { PAL_LINES } else { NTSC_LINES },
            r.breakpoint.is_none(),
            r.frames == 0 && !r.nmi_pending && !r.at_breakpoint && !r.breakpoint_hit,
            r.ctrl == 0 && !r.vblank,
    {
        Ppu {
            clock: 0,
            pixel_format,
            dot: 0,
            line: 0,
            lines_per_frame: if pal { PAL_LINES } else { NTSC_LINES },
            ctrl: 0,
            mask: 0,
            vblank: false,
            sprite_zero_hit: false,
            sprite_overflow: false,
            io_latch: 0,
            oam_addr: 0,
            oam: zeroed(256),
            vram_addr: 0,
            temp_addr: 0,
            fine_x: 0,
            write_toggle: false,
            read_buffer: 0,
            nametables: zeroed(0x800),
            palette: zeroed(32),
            nmi_interrupt_raised: false,
            nmi_pending: false,
            frames: 0,
            breakpoint: None,
            at_breakpoint: false,
            breakpoint_hit: false,
        }
    }

    /// A copy of every register, counter and memory.
    pub fn duplicate(&self) -> (r: Ppu)
        ensures
            r.oam@ == self.oam@,
            r.nametables@ == self.nametables@,
            r.palette@ == self.palette@,
            r == (Ppu { oam: r.oam, nametables: r.nametables, palette: r.palette, ..*self }),
            self.wf() ==> r.wf(),
    {
        Ppu {
            oam: copy_bytes(&self.oam),
            nametables: copy_bytes(&self.nametables),
            palette: copy_bytes(&self.palette),
            ..*self
        }
    }

    /// Power-on state; the clock and frame count keep counting and a debug
    /// breakpoint stays set.
    pub fn power_cycle(&mut self)
        requires
            old(self).wf(),
        ensures
            final(self).wf(),
            final(self).clock == old(self).clock,
            final(self).breakpoint == old(self).breakpoint,
            final(self).lines_per_frame == if old(self).lines_per_frame == PAL_LINES {
                PAL_LINES
            } else {
                NTSC_LINES
            },
            final(self).is_powered_on(),
            final(self).frames == old(self).frames,
            final(self).pixel_format == old(self).pixel_format,
    {
        let clock = self.clock;
        let frames = self.frames;
        let breakpoint = self.breakpoint;
        *self = Ppu::new(self.lines_per_frame == PAL_LINES, self.pixel_format);
        self.clock = clock;
        self.frames = frames;
        self.breakpoint = breakpoint;
    }

    /// The reset line clears the control and mask registers and the address
    /// toggle; counters and memories are untouched.
    pub fn reset(&mut self)
        requires
            old(self).wf(),
        ensures
            final(self).wf(),
            final(self).clock == old(self).clock,
            final(self).dot == old(self).dot && final(self).line == old(self).line,
            final(self).breakpoint == old(self).breakpoint,
            final(self).at_breakpoint == old(self).at_breakpoint,
            final(self).ctrl == 0 && final(self).mask == 0,
            final(self).pixel_format == old(self).pixel_format,
            !final(self).nmi_interrupt_raised,
    {
        assert(0u8 & 0x80 == 0) by (bit_vector);
        self.ctrl = 0;
        self.mask = 0;
        self.write_toggle = false;
        self.read_buffer = 0;
        self.nmi_interrupt_raised = false;
    }

    /// Sets or clears the debug breakpoint.
    pub fn set_breakpoint(&mut self, at: Option<(u16, u16)>)
        requires
            old(self).wf(),
        ensures
            final(self).wf(),
            *final(self) == (Ppu {
                breakpoint: at,
                at_breakpoint: false,
                breakpoint_hit: false,
                ..*old(self)
            }),
    {
        self.breakpoint = at;
        self.at_breakpoint = false;
        self.breakpoint_hit = false;
    }

    /// Index into the nametable memory for a PPU address in 0x2000..0x3F00.
    fn nametable_index(addr: u16) -> (r: usize)
        ensures
            r < 0x800,
            r == addr as int % 0x800,
    {
        (addr % 0x800) as usize
    }

    fn palette_slot(addr: u16) -> (r: usize)
        ensures
            r == palette_index(addr),
            r < 32,
    {
        let i = (addr % 32) as usize;
        if i >= 16 && i % 4 == 0 { i - 16 } else { i }
    }

    /// Reads the PPU's own address space (0x0000..0x4000) without side effects.
    pub fn vram_peek(&self, cartridge: &Cartridge, addr: u16) -> (r: u8)
        requires
            self.wf(),
            cartridge.wf(),
        ensures
            addr % 0x4000 < 0x2000 ==> r == cartridge.chr@[addr as int % 0x4000],
            0x3f00 <= addr % 0x4000 ==> r == self.palette@[palette_index(addr)],
            0x2000 <= addr % 0x4000 < 0x3f00 ==> r == self.nametables@[addr as int % 0x800],
    {
        let a = addr % 0x4000;
        if a < 0x2000 {
            cartridge.ppu_read(a)
        } else if a < 0x3f00 {
            self.nametables[Self::nametable_index(a)]
        } else {
            proof {
                assert(palette_index(a) == palette_index(addr));
            }
            self.palette[Self::palette_slot(a)]
        }
    }

    /// Writes the PPU's own address space (`addr` below 0x4000).
    pub fn vram_write(&mut self, cartridge: &mut Cartridge, addr: u16, data: u8)
        requires
            old(self).wf(),
            old(cartridge).wf(),
            addr < 0x4000,
        ensures
            final(self).wf(),
            final(cartridge).wf(),
            final(cartridge).prg_rom == old(cartridge).prg_rom,
            final(cartridge).prg_ram == old(cartridge).prg_ram,
            *final(self) == (Ppu {
                nametables: final(self).nametables,
                palette: final(self).palette,
                ..*old(self)
            }),
            addr < 0x2000 ==> final(self).nametables == old(self).nametables && final(self).palette
                == old(self).palette && final(cartridge).chr@ == if old(cartridge).chr_is_ram {
                old(cartridge).chr@.update(addr as int, data)
            } else {
                old(cartridge).chr@
            },
            0x2000 <= addr < 0x3f00 ==> final(self).nametables@ == old(self).nametables@.update(
                addr as int % 0x800,
                data,
            ) && final(self).palette == old(self).palette && *final(cartridge) == *old(cartridge),
            0x3f00 <= addr ==> final(self).palette@ == old(self).palette@.update(
                palette_index(addr),
                data,
            ) && final(self).nametables == old(self).nametables && *final(cartridge) == *old(cartridge),
            final(cartridge).chr_is_ram == old(cartridge).chr_is_ram,
    {
        if addr < 0x2000 {
            cartridge.ppu_write(addr, data);
        } else if addr < 0x3f00 {
            self.nametables.set(Self::nametable_index(addr), data);
        } else {
            self.palette.set(Self::palette_slot(addr), data);
        }
    }

    /// The position after (line, dot) in a frame of `lines` lines.
    pub open spec fn next_position(line: u16, dot: u16, lines: u16) -> (u16, u16) {
        if dot + 1 < DOTS_PER_LINE {
            (line, (dot + 1) as u16)
        } else if line + 1 < lines {
            ((line + 1) as u16, 0)
        } else {
            (0, 0)
        }
    }

    /// The status that stepping the dot at the current position produces.
    pub open spec fn dot_status(&self) -> PpuStatus {
        if self.line == VBLANK_LINE && self.dot == 1 && self.ctrl & 0x80 != 0
            && !self.nmi_interrupt_raised {
            PpuStatus::RaiseNmi
        } else if self.dot + 1 == DOTS_PER_LINE && self.line + 1 == self.lines_per_frame {
            PpuStatus::FinishedFrame
        } else {
            PpuStatus::Idle
        }
    }

    /// Dots from the current position to the end of the frame, the current
    /// dot included.
    pub open spec fn dots_to_frame_end(&self) -> int {
        (self.lines_per_frame - self.line) * (DOTS_PER_LINE as int) - self.dot
    }

    /// The clock value at which the current frame completes; it stays put
    /// while the frame runs, whatever else happens.
    pub open spec fn frame_mark(&self) -> int {
        self.clock + self.dots_to_frame_end()
    }

    /// The state after one call of `step`: the halted state at a breakpoint,
    /// else one dot on, with vertical blank starting on the second dot of
    /// line 241 and ending on the second dot of the pre-render line.
    pub open spec fn next(&self) -> Ppu {
        if self.halts_here() {
            Ppu { at_breakpoint: true, breakpoint_hit: true, ..*self }
        } else {
            let pos = Self::next_position(self.line, self.dot, self.lines_per_frame);
            let wrap = self.dot + 1 == DOTS_PER_LINE && self.line + 1 == self.lines_per_frame;
            let base = Ppu {
                at_breakpoint: false,
                clock: (self.clock + 1) as u64,
                line: pos.0,
                dot: pos.1,
                frames: if wrap { (self.frames + 1) as u64 } else { self.frames },
                ..*self
            };
            if self.line == VBLANK_LINE && self.dot == 1 {
                let raised = self.ctrl & 0x80 != 0;
                Ppu {
                    vblank: true,
                    nmi_interrupt_raised: raised,
                    nmi_pending: self.nmi_pending || (raised && !self.nmi_interrupt_raised),
                    ..base
                }
            } else if self.line + 1 == self.lines_per_frame && self.dot == 1 {
                Ppu {
                    vblank: false,
                    sprite_zero_hit: false,
                    sprite_overflow: false,
                    nmi_interrupt_raised: false,
                    ..base
                }
            } else {
                base
            }
        }
    }

    /// The state after the three dots of one CPU cycle; stepping stops at a
    /// breakpoint, on exactly the dot it names.
    pub open spec fn after_cpu_cycle(&self) -> Ppu {
        let p1 = self.next();
        if self.halts_here() {
            p1
        } else if p1.halts_here() {
            p1.next()
        } else {
            p1.next().next()
        }
    }

    /// The grey level of the backdrop colour (palette entry 0).
    pub open spec fn backdrop_level(&self) -> u8 {
        ((self.palette@[0] & 0x3f) * 4) as u8
    }

    /// Byte offset of the current dot's pixel in an RGBA frame.
    pub open spec fn pixel_offset(&self) -> int {
        (self.line as int * FRAME_WIDTH as int + self.dot as int) * 4
    }

    /// `fb` after this dot's pixel is drawn: at visible positions of a
    /// whole frame, the backdrop colour in the pixel format's channel order
    /// (its three colour channels are equal, so both formats give the same
    /// bytes) and an opaque alpha; otherwise untouched.
    pub open spec fn drawn(&self, fb: Seq<u8>) -> Seq<u8> {
        if self.line < FRAME_HEIGHT && self.dot < FRAME_WIDTH && fb.len() == FRAME_BYTES {
            let i = self.pixel_offset();
            let v = self.backdrop_level();
            fb.update(i, v).update(i + 1, v).update(i + 2, v).update(i + 3, 0xff)
        } else {
            fb
        }
    }

    /// Writes the backdrop colour at the current visible position.
    fn put_backdrop(&self, fb: &mut Vec<u8>)
        requires
            self.wf(),
            old(fb).len() == FRAME_BYTES,
            self.line < FRAME_HEIGHT,
            self.dot < FRAME_WIDTH,
        ensures
            final(fb)@ == self.drawn(old(fb)@),
    {
        let line = self.line as usize;
        let dot = self.dot as usize;
        assert((line * 256 + dot) * 4 + 3 < 245760) by (nonlinear_arith)
            requires line < 240, dot < 256;
        let i = (line * FRAME_WIDTH + dot) * 4;
        let raw = self.palette[0];
        let entry = raw & 0x3f;
        assert(raw & 0x3f <= 0x3f) by (bit_vector);
        let level = entry * 4;
        let (red, blue) = (level, level);
        let (c0, c2) = match self.pixel_format {
            PixelFormat::Rgba8888 => (red, blue),
            PixelFormat::Bgra8888 => (blue, red),
        };
        fb.set(i, c0);
        fb.set(i + 1, level);
        fb.set(i + 2, c2);
        fb.set(i + 3, 0xff);
    }

    /// Steps one dot, drawing into `fb` when it holds a whole frame. Returns
    /// `None`, without advancing, when the debug breakpoint stops stepping
    /// here; the next call then steps past it.
    #[verifier::rlimit(60)]
    pub fn step(&mut self, fb: &mut Vec<u8>) -> (r: Option<PpuStatus>)
        requires
            old(self).wf(),
            old(self).clock < u64::MAX,
        ensures
            final(self).wf(),
            final(fb).len() == old(fb).len(),
            final(fb)@ == if old(self).halts_here() { old(fb)@ } else { old(self).drawn(old(fb)@) },
            *final(self) == old(self).next(),
            final(self).frames == old(self).frames ==> final(self).frame_mark() == old(self).frame_mark(),
            final(self).lines_per_frame == old(self).lines_per_frame,
            final(self).breakpoint == old(self).breakpoint,
            r.is_none() <==> old(self).halts_here(),
            r.is_none() ==> *final(self) == (Ppu {
                at_breakpoint: true,
                breakpoint_hit: true,
                ..*old(self)
            }),
            r matches Some(st) ==> {
                &&& st == old(self).dot_status()
                &&& final(self).clock == old(self).clock + 1
                &&& final(self).position() == Self::next_position(
                    old(self).line,
                    old(self).dot,
                    old(self).lines_per_frame,
                )
                &&& !final(self).at_breakpoint
                &&& final(self).breakpoint_hit == old(self).breakpoint_hit
                &&& final(self).nmi_pending == (old(self).nmi_pending || st == PpuStatus::RaiseNmi)
                &&& final(self).frames == if st == PpuStatus::FinishedFrame {
                    old(self).frames + 1
                } else {
                    old(self).frames as int
                }
            },
    {
        let halts = match self.breakpoint {
            Some(bp) => bp.0 == self.line && bp.1 == self.dot && !self.at_breakpoint,
            None => false,
        };
        if halts {
            self.at_breakpoint = true;
            self.breakpoint_hit = true;
            return None;
        }
        self.at_breakpoint = false;

        if self.line < 240 && self.dot < 256 && fb.len() == FRAME_BYTES {
            self.put_backdrop(fb);
        }

        let mut status = PpuStatus::Idle;
        if self.line == VBLANK_LINE && self.dot == 1 {
            let was_raised = self.nmi_interrupt_raised;
            self.vblank = true;
            self.nmi_interrupt_raised = self.ctrl & 0x80 != 0;
            if !was_raised && self.nmi_interrupt_raised {
                self.nmi_pending = true;
                status = PpuStatus::RaiseNmi;
            }
        } else if self.line + 1 == self.lines_per_frame && self.dot == 1 {
            self.vblank = false;
            self.sprite_zero_hit = false;
            self.sprite_overflow = false;
            self.nmi_interrupt_raised = false;
        }

        self.clock = self.clock + 1;
        if self.dot + 1 < DOTS_PER_LINE {
            self.dot = self.dot + 1;
        } else {
            self.dot = 0;
            if self.line + 1 < self.lines_per_frame {
                self.line = self.line + 1;
            } else {
                self.line = 0;
                self.frames = self.frames + 1;
                status = PpuStatus::FinishedFrame;
            }
        }
        proof {
            let o = old(self);
            let n = o.lines_per_frame as int;
            let l = o.line as int;
            assert((n - l) * 341 - 340 - 1 == (n - (l + 1)) * 341 - 0) by (nonlinear_arith);
        }
        Some(status)
    }

    /// A read of register `reg` (0..8) without side effects.
    pub fn system_bus_peek(&self, reg: u8) -> (r: u8)
        requires
            self.wf(),
            reg < 8,
        ensures
            r == self.register_value(reg),
    {
        if reg == 2 {
            let v: u8 = if self.vblank { 0x80 } else { 0 };
            let s: u8 = if self.sprite_zero_hit { 0x40 } else { 0 };
            let o: u8 = if self.sprite_overflow { 0x20 } else { 0 };
            v | s | o | (self.io_latch & 0x1f)
        } else if reg == 4 {
            self.oam[self.oam_addr as usize]
        } else if reg == 7 {
            if self.vram_addr >= 0x3f00 {
                (self.palette[Self::palette_slot(self.vram_addr)] & 0x3f) | (self.io_latch & 0xc0)
            } else {
                self.read_buffer
            }
        } else {
            self.io_latch
        }
    }

    fn advance_vram_addr(&mut self)
        requires
            old(self).wf(),
        ensures
            *final(self) == (Ppu {
                vram_addr: ((old(self).vram_addr + old(self).vram_increment()) % 0x4000) as u16,
                ..*old(self)
            }),
    {
        let inc: u16 = if self.ctrl & 0x04 != 0 { 32 } else { 1 };
        self.vram_addr = (self.vram_addr + inc) % 0x4000;
    }

    /// A read of register `reg` (0..8). The value is `register_value`; the
    /// latch takes it, a status read ends vertical blank and resets the
    /// address toggle, and data reads refill the read buffer and advance the
    /// address.
    pub fn system_bus_read(&mut self, cartridge: &Cartridge, reg: u8) -> (r: u8)
        requires
            old(self).wf(),
            cartridge.wf(),
            reg < 8,
        ensures
            final(self).wf(),
            r == old(self).register_value(reg),
            *final(self) == old(self).after_register_read(reg, cartridge.chr@),
            final(self).io_latch == r,
            final(self).clock == old(self).clock,
            final(self).dot == old(self).dot && final(self).line == old(self).line,
            final(self).lines_per_frame == old(self).lines_per_frame,
            final(self).breakpoint == old(self).breakpoint,
            final(self).at_breakpoint == old(self).at_breakpoint,
            final(self).nmi_pending == old(self).nmi_pending,
            final(self).frames == old(self).frames,
            final(self).ctrl == old(self).ctrl,
            reg == 2 ==> !final(self).vblank && !final(self).write_toggle,
            reg != 2 ==> final(self).vblank == old(self).vblank,
            reg == 7 ==> final(self).vram_addr == ((old(self).vram_addr + old(self).vram_increment())
                % 0x4000) as u16,
            reg == 7 && old(self).vram_addr < 0x2000 ==> final(self).read_buffer
                == cartridge.chr@[old(self).vram_addr as int],
            reg == 7 && 0x2000 <= old(self).vram_addr ==> final(self).read_buffer
                == old(self).nametables@[old(self).vram_addr as int % 0x800],
            reg != 7 ==> final(self).vram_addr == old(self).vram_addr,
    {
        let r = self.system_bus_peek(reg);
        if reg == 2 {
            self.vblank = false;
            self.write_toggle = false;
            self.nmi_interrupt_raised = false;
        } else if reg == 7 {
            let a = self.vram_addr;
            self.read_buffer = if a >= 0x3f00 {
                self.nametables[Self::nametable_index(a)]
            } else {
                self.vram_peek(cartridge, a)
            };
            self.advance_vram_addr();
        }
        self.io_latch = r;
        r
    }

    /// A write of `data` to register `reg` (0..8). The latch always takes the
    /// byte. Enabling NMI generation during vertical blank raises an NMI.
    #[verifier::rlimit(100)]
    pub fn system_bus_write(&mut self, cartridge: &mut Cartridge, reg: u8, data: u8)
        requires
            old(self).wf(),
            old(cartridge).wf(),
            reg < 8,
        ensures
            final(self).wf(),
            final(cartridge).wf(),
            final(cartridge).prg_rom == old(cartridge).prg_rom,
            final(cartridge).prg_ram == old(cartridge).prg_ram,
            final(self).io_latch == data,
            *final(self) == (Ppu {
                oam: final(self).oam,
                nametables: final(self).nametables,
                palette: final(self).palette,
                ..old(self).regs_after_write(reg, data)
            }),
            old(self).memories_after_write(*final(self), reg, data),
            final(cartridge).chr_is_ram == old(cartridge).chr_is_ram,
            final(cartridge).chr@ == if reg == 7 && old(self).vram_addr < 0x2000
                && old(cartridge).chr_is_ram {
                old(cartridge).chr@.update(old(self).vram_addr as int, data)
            } else {
                old(cartridge).chr@
            },
            final(self).pixel_format == old(self).pixel_format,
            final(self).clock == old(self).clock,
            final(self).dot == old(self).dot && final(self).line == old(self).line,
            final(self).lines_per_frame == old(self).lines_per_frame,
            final(self).breakpoint == old(self).breakpoint,
            final(self).at_breakpoint == old(self).at_breakpoint,
            final(self).frames == old(self).frames,
            final(self).vblank == old(self).vblank,
            reg == 0 ==> final(self).ctrl == data,
            reg != 0 ==> final(self).ctrl == old(self).ctrl,
            final(self).nmi_pending == (old(self).nmi_pending || (reg == 0
                && !old(self).nmi_interrupt_raised && nmi_output(data, old(self).vblank))),
            reg == 1 ==> final(self).mask == data,
            reg == 3 ==> final(self).oam_addr == data,
            reg == 6 && old(self).write_toggle ==> final(self).vram_addr == ((old(self).temp_addr
                & 0x3f00) | (data as u16)),
            (reg == 5 || reg == 6) ==> final(self).write_toggle == !old(self).write_toggle,
            reg == 7 ==> final(self).vram_addr == ((old(self).vram_addr + old(self).vram_increment())
                % 0x4000) as u16,
            reg == 4 ==> final(self).oam@ == old(self).oam@.update(old(self).oam_addr as int, data)
                && final(self).oam_addr == (old(self).oam_addr + 1) % 256,
    {
        if reg == 0 {
            let was_raised = self.nmi_interrupt_raised;
            self.ctrl = data;
            let t = self.temp_addr;
            assert((t & 0x73ff) | (((data & 0x03) as u16) << 10u16) < 0x8000) by (bit_vector)
                requires t < 0x8000;
            self.temp_addr = (t & 0x73ff) | (((data & 0x03) as u16) << 10u16);
            self.nmi_interrupt_raised = self.vblank && data & 0x80 != 0;
            if !was_raised && self.nmi_interrupt_raised {
                self.nmi_pending = true;
            }
        } else if reg == 1 {
            self.mask = data;
        } else if reg == 3 {
            self.oam_addr = data;
        } else if reg == 4 {
            self.oam.set(self.oam_addr as usize, data);
            self.oam_addr = if self.oam_addr == 255 { 0 } else { self.oam_addr + 1 };
        } else if reg == 5 {
            let t = self.temp_addr;
            if !self.write_toggle {
                assert((t & 0x7fe0) | ((data >> 3u8) as u16) < 0x8000) by (bit_vector)
                    requires t < 0x8000;
                self.fine_x = data & 0x07;
                self.temp_addr = (t & 0x7fe0) | ((data >> 3u8) as u16);
            } else {
                assert((t & 0x0c1f) | (((data & 0x07) as u16) << 12u16) | (((data & 0xf8) as u16)
                    << 2u16) < 0x8000) by (bit_vector);
                self.temp_addr = (t & 0x0c1f) | (((data & 0x07) as u16) << 12u16) | (((data & 0xf8)
                    as u16) << 2u16);
            }
            self.write_toggle = !self.write_toggle;
        } else if reg == 6 {
            let t = self.temp_addr;
            if !self.write_toggle {
                assert((t & 0x00ff) | (((data & 0x3f) as u16) << 8u16) < 0x4000) by (bit_vector);
                self.temp_addr = (t & 0x00ff) | (((data & 0x3f) as u16) << 8u16);
            } else {
                assert((t & 0x3f00) | (data as u16) < 0x4000) by (bit_vector);
                self.temp_addr = (t & 0x3f00) | (data as u16);
                self.vram_addr = self.temp_addr;
            }
            self.write_toggle = !self.write_toggle;
        } else if reg == 7 {
            let a = self.vram_addr;
            self.vram_write(cartridge, a, data);
            self.advance_vram_addr();
        }
        self.io_latch = data;
    }
}

/// A frame ends within one frame's worth of dots: at least the current dot
/// and at most 312 lines of 341 dots remain.
pub proof fn lemma_frame_end_bounds(p: Ppu)
    requires
        p.wf(),
    ensures
        1 <= p.dots_to_frame_end() <= 106392,
{
    let n = p.lines_per_frame as int;
    let l = p.line as int;
    assert(341 <= (n - l) * 341 <= 312 * 341) by (nonlinear_arith)
        requires 1 <= n - l, n - l <= 312;
}

} // verus!
