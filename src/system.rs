//! The system bus: decodes CPU addresses, multiplexes WRAM, PPU, APU,
//! controller ports and cartridge, keeps the open-bus latch, watches
//! addresses for a debugger, and advances PPU and APU with every bus cycle.
use vstd::prelude::*;
use crate::apu::Apu;
use crate::apu::DmcDmaRequest;
use crate::bus::decode_read;
use crate::bus::decode_write;
use crate::bus::open_bus_fill;
use crate::bus::read_target;
use crate::bus::write_target;
use crate::bus::ReadTarget;
use crate::bus::WriteTarget;
use crate::bus::WRAM_SIZE;
use crate::cartridge::copy_bytes;
use crate::cartridge::zeroed;
use crate::cartridge::Cartridge;
use crate::port::Port;
use crate::ppu::Ppu;
use crate::ppu::PixelFormat;
use crate::ppu::NTSC_LINES;
use crate::ppu::PAL_LINES;

verus! {

pub const NTSC_CPU_CLOCK_HZ: u32 = 1789773;
pub const PAL_CPU_CLOCK_HZ: u32 = 1662607;
/// The CPU clock stays below this bound, and the PPU clock below three
/// times it (millennia of emulated time), so that counting never overflows.
pub const CLOCK_LIMIT: u64 = 0x4000_0000_0000_0000;
/// Entries in the per-address I/O statistics: one per bus address.
pub const IO_STATS_LEN: usize = 0x10000;

#[derive(Clone, Copy, PartialEq, Eq, Debug, Structural)]
pub enum Model {
    Ntsc,
    Pal,
}

impl Default for Model {
    fn default() -> (r: Model)
        ensures
            r == Model::Ntsc,
    {
        Model::Ntsc
    }
}

impl Model {
    pub fn cpu_clock_hz(&self) -> (r: u32)
        ensures
            r == match *self {
                Model::Ntsc => NTSC_CPU_CLOCK_HZ,
                Model::Pal => PAL_CPU_CLOCK_HZ,
            },
    {
        match self {
            Model::Ntsc => NTSC_CPU_CLOCK_HZ,
            Model::Pal => PAL_CPU_CLOCK_HZ,
        }
    }
}

/// A set of bus operations, one bit each.
#[derive(Clone, Copy, PartialEq, Eq, Debug, Structural)]
pub struct WatchOps {
    pub bits: u8,
}

impl WatchOps {
    pub fn read() -> (r: WatchOps)
        ensures
            r.bits == 0b1,
    {
        WatchOps { bits: 0b1 }
    }

    pub fn write() -> (r: WatchOps)
        ensures
            r.bits == 0b10,
    {
        WatchOps { bits: 0b10 }
    }

    pub fn execute() -> (r: WatchOps)
        ensures
            r.bits == 0b100,
    {
        WatchOps { bits: 0b100 }
    }

    /// Also watches the superfluous dummy reads and writes the CPU makes.
    pub fn dummy() -> (r: WatchOps)
        ensures
            r.bits == 0b1000,
    {
        WatchOps { bits: 0b1000 }
    }

    pub fn union(self, other: WatchOps) -> (r: WatchOps)
        ensures
            r.bits == self.bits | other.bits,
    {
        WatchOps { bits: self.bits | other.bits }
    }

    pub open spec fn covers(self, other: WatchOps) -> bool {
        self.bits & other.bits == other.bits
    }

    /// Whether every operation in `other` is in `self`.
    pub fn contains(self, other: WatchOps) -> (r: bool)
        ensures
            r == self.covers(other),
    {
        self.bits & other.bits == other.bits
    }
}

#[derive(Clone, Copy, PartialEq, Eq, Debug, Structural)]
pub struct WatchPoint {
    pub address: u16,
    pub ops: WatchOps,
}

#[derive(Clone, Copy, PartialEq, Eq, Debug, Default, Structural)]
pub struct IoStatsRecord {
    pub reads: u64,
    pub writes: u64,
    pub execute: u64,
}

/// Which debugging aids a system keeps.
#[derive(Clone, Copy, PartialEq, Eq, Debug, Structural)]
pub struct DebugOptions {
    pub track_watchpoints: bool,
    pub track_io_stats: bool,
}

/// Debugging state; not part of the machine's architectural state.
pub struct NoCloneDebugState {
    pub options: DebugOptions,
    pub watch_points: Vec<WatchPoint>,
    /// Sticky: set when a watched access happens, cleared by the caller.
    pub watch_hit: bool,
    pub io_stats: Vec<IoStatsRecord>,
}

/// Which counter of an address's I/O record an access bumps.
#[derive(Clone, Copy, PartialEq, Eq, Debug, Structural)]
pub enum IoKind {
    Read,
    Write,
    Execute,
}

pub open spec fn watch_addresses_unique(w: Seq<WatchPoint>) -> bool {
    forall|i: int, j: int|
        0 <= i < w.len() && 0 <= j < w.len() && w[i].address == w[j].address ==> i == j
}

/// Whether a watch list flags an access of kind `ops` at `addr`.
pub open spec fn watched(w: Seq<WatchPoint>, addr: u16, ops: WatchOps) -> bool {
    exists|i: int| 0 <= i < w.len() && w[i].address == addr && w[i].ops.covers(ops)
}

pub open spec fn bump(n: u64) -> u64 {
    if n < u64::MAX { (n + 1) as u64 } else { n }
}

impl NoCloneDebugState {
    pub open spec fn wf(&self) -> bool {
        &&& watch_addresses_unique(self.watch_points@)
        &&& self.options.track_io_stats ==> self.io_stats.len() == IO_STATS_LEN
    }

    pub fn new(options: DebugOptions) -> (r: NoCloneDebugState)
        ensures
            r.wf(),
            r.options == options,
            r.watch_points@.len() == 0,
            !r.watch_hit,
            !options.track_io_stats ==> r.io_stats@.len() == 0,
            options.track_io_stats ==> forall|i: int|
                0 <= i < IO_STATS_LEN ==> r.io_stats@[i] == (IoStatsRecord { reads: 0, writes: 0, execute: 0 }),
    {
        let mut io_stats: Vec<IoStatsRecord> = Vec::new();
        if options.track_io_stats {
            while io_stats.len() < IO_STATS_LEN
                invariant
                    io_stats.len() <= IO_STATS_LEN,
                    forall|i: int| 0 <= i < io_stats.len() ==> io_stats@[i] == (IoStatsRecord { reads: 0, writes: 0, execute: 0 }),
                decreases IO_STATS_LEN - io_stats.len(),
            {
                io_stats.push(IoStatsRecord { reads: 0, writes: 0, execute: 0 });
            }
        }
        NoCloneDebugState { options, watch_points: Vec::new(), watch_hit: false, io_stats }
    }
}

pub struct System {
    pub model: Model,
    pub ppu: Ppu,
    pub apu: Apu,
    /// Raised by the APU while stepping; the CPU takes and serves it before
    /// its next bus access.
    pub dmc_dma_request: Option<DmcDmaRequest>,
    /// Set by a write to 0x4014: the page the CPU is to copy into OAM.
    pub oam_dma_page: Option<u8>,
    /// The last value driven on the bus.
    pub open_bus_value: u8,
    /// 0x0000..0x0800, mirrored up to 0x2000.
    pub wram: Vec<u8>,
    pub cartridge: Cartridge,
    pub port1: Port,
    pub port2: Port,
    /// The pixels the PPU draws into while a frame is being stepped; empty
    /// (and left alone) otherwise.
    pub framebuffer: Vec<u8>,
    pub debug: NoCloneDebugState,
}

impl System {
    pub open spec fn wf(&self) -> bool {
        &&& self.wram.len() == WRAM_SIZE
        &&& self.ppu.wf()
        &&& self.apu.wf()
        &&& self.cartridge.wf()
        &&& self.debug.wf()
        &&& (self.dmc_dma_request.is_some() ==> self.apu.dma_awaiting)
        &&& (self.dmc_dma_request matches Some(q) ==> q.address == self.apu.dmc_address)
    }

    /// Room for `cycles` more CPU cycles (and three PPU dots each) below
    /// the clock limit.
    pub open spec fn has_room(&self, cycles: int) -> bool {
        &&& self.apu.clock + cycles <= CLOCK_LIMIT
        &&& self.ppu.clock + 3 * cycles <= 3 * CLOCK_LIMIT
    }

    /// The DMC has no sample bytes left to fetch, so no DMA comes.
    pub open spec fn dmc_quiet(&self) -> bool {
        self.apu.dmc_bytes_remaining == 0
    }

    /// NTSC ratio: three dots per CPU cycle.
    pub open spec fn clocks_in_ratio(&self) -> bool {
        self.ppu.clock == 3 * self.apu.clock
    }

    /// The value the addressed device drives for a read of `addr`, and the
    /// bits it leaves undriven.
    pub open spec fn bus_value(&self, addr: u16) -> (u8, u8) {
        match read_target(addr) {
            ReadTarget::Wram(i) => (self.wram@[i as int], 0),
            ReadTarget::PpuRegister(r) => (self.ppu.register_value(r), 0),
            ReadTarget::OamDma => (0, 0xff),
            ReadTarget::Port1 => (self.port1.output_bit(), 0xe0),
            ReadTarget::Port2 => (self.port2.output_bit(), 0xe0),
            ReadTarget::Apu => self.apu.bus_value(addr),
            ReadTarget::Cartridge => self.cartridge.bus_value(addr),
        }
    }

    /// What a read of `addr` returns now: the driven bits, and the latch
    /// for the rest.
    pub open spec fn peek_value(&self, addr: u16) -> u8 {
        open_bus_fill(self.bus_value(addr).0, self.bus_value(addr).1, self.open_bus_value)
    }

    pub fn new(model: Model, pixel_format: PixelFormat, cartridge: Cartridge, options: DebugOptions) -> (r: System)
        requires
            cartridge.wf(),
        ensures
            r.wf(),
            r.model == model,
            r.ppu.pixel_format == pixel_format,
            r.cartridge == cartridge,
            r.apu.clock == 0 && r.ppu.clock == 0,
            r.apu == Apu::powered_on(0),
            r.ppu.is_powered_on(),
            r.ppu.frames == 0,
            r.ppu.lines_per_frame == if model == Model::Pal { PAL_LINES } else { NTSC_LINES },
            r.port1 == (Port { buttons: 0, strobe: false, shift: 0 }),
            r.port2 == (Port { buttons: 0, strobe: false, shift: 0 }),
            r.framebuffer@.len() == 0,
            r.ppu.breakpoint.is_none(),
            r.dmc_dma_request.is_none(),
            r.oam_dma_page.is_none(),
            r.open_bus_value == 0,
            forall|i: int| 0 <= i < WRAM_SIZE ==> r.wram@[i] == 0,
            r.debug.options == options,
            r.debug.watch_points@.len() == 0,
            !r.debug.watch_hit,
            options.track_io_stats ==> forall|i: int|
                0 <= i < IO_STATS_LEN ==> r.debug.io_stats@[i] == (IoStatsRecord { reads: 0, writes: 0, execute: 0 }),
    {
        System {
            model,
            ppu: Ppu::new(model == Model::Pal, pixel_format),
            apu: Apu::new(),
            dmc_dma_request: None,
            oam_dma_page: None,
            open_bus_value: 0,
            wram: zeroed(WRAM_SIZE),
            cartridge,
            port1: Port::new(),
            port2: Port::new(),
            framebuffer: Vec::new(),
            debug: NoCloneDebugState::new(options),
        }
    }

    /// A copy of the architectural state (registers, memories, banks,
    /// clocks) without the debugging aids: the copy watches nothing and
    /// keeps no statistics, and holds no framebuffer.
    pub fn snapshot(&self) -> (r: System)
        requires
            self.wf(),
        ensures
            r.wf(),
            r.model == self.model,
            r.ppu.oam@ == self.ppu.oam@,
            r.ppu.nametables@ == self.ppu.nametables@,
            r.ppu.palette@ == self.ppu.palette@,
            r.ppu == (Ppu { oam: r.ppu.oam, nametables: r.ppu.nametables, palette: r.ppu.palette, ..self.ppu }),
            r.apu == self.apu,
            r.dmc_dma_request == self.dmc_dma_request,
            r.oam_dma_page == self.oam_dma_page,
            r.open_bus_value == self.open_bus_value,
            r.wram@ == self.wram@,
            r.cartridge.prg_rom@ == self.cartridge.prg_rom@,
            r.cartridge.prg_ram@ == self.cartridge.prg_ram@,
            r.cartridge.chr@ == self.cartridge.chr@,
            r.cartridge.chr_is_ram == self.cartridge.chr_is_ram,
            r.port1 == self.port1,
            r.port2 == self.port2,
            r.framebuffer@.len() == 0,
            r.debug.watch_points@.len() == 0,
            r.debug.io_stats@.len() == 0,
            !r.debug.watch_hit,
            !r.debug.options.track_watchpoints && !r.debug.options.track_io_stats,
    {
        System {
            model: self.model,
            ppu: self.ppu.duplicate(),
            apu: self.apu,
            dmc_dma_request: self.dmc_dma_request,
            oam_dma_page: self.oam_dma_page,
            open_bus_value: self.open_bus_value,
            wram: copy_bytes(&self.wram),
            cartridge: self.cartridge.duplicate(),
            port1: self.port1,
            port2: self.port2,
            framebuffer: Vec::new(),
            debug: NoCloneDebugState::new(DebugOptions { track_watchpoints: false, track_io_stats: false }),
        }
    }

    /// Power-on: every device to its power-on state and WRAM cleared. The
    /// clocks keep counting; watch points and statistics survive.
    pub fn power_cycle(&mut self)
        requires
            old(self).wf(),
        ensures
            final(self).wf(),
            final(self).apu.clock == old(self).apu.clock,
            final(self).ppu.clock == old(self).ppu.clock,
            final(self).ppu.breakpoint == old(self).ppu.breakpoint,
            final(self).dmc_dma_request.is_none(),
            final(self).oam_dma_page.is_none(),
            final(self).open_bus_value == 0,
            forall|i: int| 0 <= i < WRAM_SIZE ==> final(self).wram@[i] == 0,
            final(self).cartridge == old(self).cartridge,
            final(self).port1.buttons == old(self).port1.buttons,
            final(self).port2.buttons == old(self).port2.buttons,
            final(self).debug.watch_points == old(self).debug.watch_points,
            final(self).debug.options == old(self).debug.options,
            !final(self).debug.watch_hit,
            old(self).debug.options.track_io_stats ==> forall|i: int|
                0 <= i < IO_STATS_LEN ==> final(self).debug.io_stats@[i] == (IoStatsRecord { reads: 0, writes: 0, execute: 0 }),
            final(self).model == old(self).model,
            final(self).ppu.is_powered_on(),
            final(self).ppu.frames == old(self).ppu.frames,
            final(self).ppu.lines_per_frame == old(self).ppu.lines_per_frame,
            final(self).apu == Apu::powered_on(old(self).apu.clock),
            !final(self).port1.strobe && final(self).port1.shift == 0,
            !final(self).port2.strobe && final(self).port2.shift == 0,
    {
        self.ppu.power_cycle();
        self.apu.power_cycle();
        self.cartridge.power_cycle();
        self.port1.power_cycle();
        self.port2.power_cycle();
        self.dmc_dma_request = None;
        self.oam_dma_page = None;
        self.open_bus_value = 0;
        self.wram = zeroed(WRAM_SIZE);
        self.debug.watch_hit = false;
        let fresh = NoCloneDebugState::new(self.debug.options);
        self.debug.io_stats = fresh.io_stats;
    }

    /// The reset line: PPU, APU and cartridge logic that it reaches.
    pub fn reset(&mut self)
        requires
            old(self).wf(),
        ensures
            final(self).wf(),
            final(self).apu.clock == old(self).apu.clock,
            final(self).ppu.clock == old(self).ppu.clock,
            final(self).ppu.breakpoint == old(self).ppu.breakpoint,
            final(self).dmc_dma_request == old(self).dmc_dma_request,
            final(self).wram == old(self).wram,
            final(self).cartridge == old(self).cartridge,
            *final(self) == (System { ppu: final(self).ppu, apu: final(self).apu, ..*old(self) }),
            final(self).ppu.ctrl == 0 && final(self).ppu.mask == 0,
            final(self).ppu.pixel_format == old(self).ppu.pixel_format,
            !final(self).ppu.nmi_interrupt_raised,
            !final(self).apu.frame_irq && !final(self).apu.dmc_irq,
            final(self).apu.dmc_bytes_remaining == 0,
    {
        self.ppu.reset();
        self.apu.reset();
        self.cartridge.reset();
    }

    pub fn nmi_line(&self) -> (r: bool)
        ensures
            r == self.ppu.nmi_interrupt_raised,
    {
        self.ppu.nmi_interrupt_raised
    }

    pub fn irq_line(&self) -> (r: bool)
        ensures
            r == (self.apu.frame_irq || self.apu.dmc_irq || self.cartridge.irq_asserted()),
    {
        self.apu.irq() || self.cartridge.irq()
    }

    pub fn ppu_clock(&self) -> (r: u64)
        ensures
            r == self.ppu.clock,
    {
        self.ppu.clock
    }

    /// The APU clock, which is also the CPU clock.
    pub fn apu_clock(&self) -> (r: u64)
        ensures
            r == self.apu.clock,
    {
        self.apu.clock
    }

    /// Fills the undriven bits from the latch, and the latch takes the result.
    fn apply_open_bus_bits_mut(&mut self, value: u8, undefined_bits: u8) -> (r: u8)
        ensures
            r == open_bus_fill(value, undefined_bits, old(self).open_bus_value),
            *final(self) == (System { open_bus_value: r, ..*old(self) }),
    {
        let r = (value & !undefined_bits) | (self.open_bus_value & undefined_bits);
        self.open_bus_value = r;
        r
    }

    /// Fills the undriven bits from the latch, without touching it.
    fn apply_open_bus_bits(&self, value: u8, undefined_bits: u8) -> (r: u8)
        ensures
            r == open_bus_fill(value, undefined_bits, self.open_bus_value),
    {
        (value & !undefined_bits) | (self.open_bus_value & undefined_bits)
    }

    /// What one bus cycle from `self` to `after` keeps and advances: the
    /// CPU/APU clock by one, the PPU by three dots (fewer only when a debug
    /// breakpoint stops it), and at most one DMA request outstanding.
    pub open spec fn bus_cycle(&self, after: System) -> bool {
        &&& after.wf()
        &&& after.apu.clock == self.apu.clock + 1
        &&& self.ppu.clock <= after.ppu.clock <= self.ppu.clock + 3
        &&& (self.ppu.breakpoint.is_none() ==> after.ppu.clock == self.ppu.clock + 3)
        &&& after.ppu.breakpoint == self.ppu.breakpoint
        &&& after.ppu.lines_per_frame == self.ppu.lines_per_frame
        &&& after.ppu.frames >= self.ppu.frames
        &&& after.ppu.pixel_format == self.ppu.pixel_format
        &&& (after.ppu.frames == self.ppu.frames ==> after.ppu.frame_mark() == self.ppu.frame_mark())
        &&& (self.apu.dma_awaiting ==> after.dmc_dma_request.is_none() && after.apu.dma_awaiting)
        &&& (after.dmc_dma_request.is_some() ==> !self.apu.dma_awaiting)
        &&& after.model == self.model
        &&& after.debug.options == self.debug.options
        &&& after.debug.watch_points == self.debug.watch_points
        &&& after.cartridge.prg_rom == self.cartridge.prg_rom
        &&& after.framebuffer.len() == self.framebuffer.len()
    }

    /// Steps the PPU one dot (see `Ppu::step`); false when a debug
    /// breakpoint stopped it.
    fn step_ppu(&mut self) -> (r: bool)
        requires
            old(self).wf(),
            old(self).ppu.clock < 3 * CLOCK_LIMIT,
        ensures
            final(self).wf(),
            r == !old(self).ppu.halts_here(),
            final(self).ppu == old(self).ppu.next(),
            final(self).ppu.frames == old(self).ppu.frames ==> final(self).ppu.frame_mark()
                == old(self).ppu.frame_mark(),
            final(self).ppu.pixel_format == old(self).ppu.pixel_format,
            r ==> final(self).ppu.clock == old(self).ppu.clock + 1,
            !r ==> final(self).ppu.clock == old(self).ppu.clock && final(self).ppu.at_breakpoint
                && final(self).ppu.breakpoint_hit,
            final(self).ppu.breakpoint == old(self).ppu.breakpoint,
            final(self).ppu.lines_per_frame == old(self).ppu.lines_per_frame,
            final(self).ppu.frames >= old(self).ppu.frames,
            final(self).framebuffer.len() == old(self).framebuffer.len(),
            *final(self) == (System {
                ppu: final(self).ppu,
                framebuffer: final(self).framebuffer,
                ..*old(self)
            }),
    {
        let st = self.ppu.step(&mut self.framebuffer);
        st.is_some()
    }

    /// Steps everything on the bus for one CPU cycle: the APU once (which
    /// may raise a DMA request) and the PPU three dots, stopping early only
    /// at a debug breakpoint. The previous DMA request must have been taken.
    pub fn step_for_cpu_cycle(&mut self)
        requires
            old(self).wf(),
            old(self).dmc_dma_request.is_none(),
            old(self).has_room(1),
        ensures
            old(self).bus_cycle(*final(self)),
            final(self).apu == old(self).apu.next(),
            final(self).dmc_dma_request == old(self).apu.step_request(),
            final(self).ppu == old(self).ppu.after_cpu_cycle(),
            old(self).clocks_in_ratio() && old(self).ppu.breakpoint.is_none()
                ==> final(self).clocks_in_ratio(),
            final(self).apu.dmc_bytes_remaining == old(self).apu.dmc_bytes_remaining,
            old(self).dmc_quiet() ==> final(self).dmc_dma_request.is_none(),
            *final(self) == (System {
                ppu: final(self).ppu,
                apu: final(self).apu,
                dmc_dma_request: final(self).dmc_dma_request,
                framebuffer: final(self).framebuffer,
                ..*old(self)
            }),
    {
        self.dmc_dma_request = self.apu.step();
        if self.step_ppu() {
            if self.step_ppu() {
                self.step_ppu();
            }
        }
    }

    /// Steps the PPU until its clock reaches `expected_ppu_clock`. Returns
    /// false, with the PPU resumable, when a debug breakpoint stops it.
    pub fn catch_up_ppu_drift(&mut self, expected_ppu_clock: u64) -> (r: bool)
        requires
            old(self).wf(),
            old(self).ppu.clock <= expected_ppu_clock <= 3 * CLOCK_LIMIT,
        ensures
            final(self).wf(),
            old(self).ppu.clock <= final(self).ppu.clock <= expected_ppu_clock,
            r ==> final(self).ppu.clock == expected_ppu_clock,
            !r ==> final(self).ppu.at_breakpoint && final(self).ppu.breakpoint_hit
                && final(self).ppu.clock < expected_ppu_clock,
            old(self).ppu.clock == expected_ppu_clock ==> r && *final(self) == *old(self),
            final(self).ppu.frames == old(self).ppu.frames ==> final(self).ppu.frame_mark()
                == old(self).ppu.frame_mark(),
            final(self).ppu.pixel_format == old(self).ppu.pixel_format,
            old(self).ppu.breakpoint.is_none() ==> r,
            final(self).ppu.breakpoint == old(self).ppu.breakpoint,
            final(self).ppu.lines_per_frame == old(self).ppu.lines_per_frame,
            final(self).ppu.frames >= old(self).ppu.frames,
            final(self).framebuffer.len() == old(self).framebuffer.len(),
            *final(self) == (System {
                ppu: final(self).ppu,
                framebuffer: final(self).framebuffer,
                ..*old(self)
            }),
    {
        while self.ppu.clock < expected_ppu_clock
            invariant
                self.wf(),
                old(self).ppu.clock <= self.ppu.clock <= expected_ppu_clock,
                expected_ppu_clock <= 3 * CLOCK_LIMIT,
                self.ppu.breakpoint == old(self).ppu.breakpoint,
                self.ppu.lines_per_frame == old(self).ppu.lines_per_frame,
                self.framebuffer.len() == old(self).framebuffer.len(),
                self.ppu.frames >= old(self).ppu.frames,
                self.ppu.frames == old(self).ppu.frames ==> self.ppu.frame_mark()
                    == old(self).ppu.frame_mark(),
                old(self).ppu.clock == expected_ppu_clock ==> *self == *old(self),
                self.ppu.pixel_format == old(self).ppu.pixel_format,
                *self == (System { ppu: self.ppu, framebuffer: self.framebuffer, ..*old(self) }),
            decreases expected_ppu_clock - self.ppu.clock,
        {
            if !self.step_ppu() {
                return false;
            }
        }
        true
    }

    /// Sets the sticky watch-hit flag when a watch point covers an access
    /// of kind `ops` at `addr`.
    fn check_watch_points(&mut self, addr: u16, ops: WatchOps)
        ensures
            final(self).debug.watch_hit == (old(self).debug.watch_hit || (
            old(self).debug.options.track_watchpoints && watched(
                old(self).debug.watch_points@,
                addr,
                ops,
            ))),
            *final(self) == (System {
                debug: NoCloneDebugState { watch_hit: final(self).debug.watch_hit, ..old(self).debug },
                ..*old(self)
            }),
    {
        if self.debug.options.track_watchpoints {
            let n = self.debug.watch_points.len();
            let mut i: usize = 0;
            let ghost hit_before = self.debug.watch_hit;
            while i < n
                invariant
                    n == self.debug.watch_points.len(),
                    i <= n,
                    self.debug.watch_hit == (hit_before || exists|j: int|
                        0 <= j < i && self.debug.watch_points@[j].address == addr
                            && self.debug.watch_points@[j].ops.covers(ops)),
                    *self == (System {
                        debug: NoCloneDebugState { watch_hit: self.debug.watch_hit, ..old(self).debug },
                        ..*old(self)
                    }),
                decreases n - i,
            {
                let w = self.debug.watch_points[i];
                if w.address == addr && w.ops.contains(ops) {
                    self.debug.watch_hit = true;
                }
                proof {
                    let wp = self.debug.watch_points@;
                    if wp[i as int].address == addr && wp[i as int].ops.covers(ops) {
                        assert(0 <= i < i + 1 && wp[i as int].address == addr);
                    } else {
                        assert forall|j: int|
                            0 <= j < i + 1 && wp[j].address == addr && wp[j].ops.covers(ops)
                            implies 0 <= j < i && wp[j].address == addr && wp[j].ops.covers(ops) by {
                        }
                    }
                }
                i = i + 1;
            }
        }
    }

    /// Counts an access of `kind` at `addr` when statistics are kept.
    fn record_io(&mut self, addr: u16, kind: IoKind)
        requires
            old(self).debug.wf(),
        ensures
            final(self).debug.wf(),
            final(self).debug.io_stats@ == old(self).stats_after(addr, kind),
            *final(self) == (System {
                debug: NoCloneDebugState { io_stats: final(self).debug.io_stats, ..old(self).debug },
                ..*old(self)
            }),
    {
        if self.debug.options.track_io_stats {
            let i = addr as usize;
            let mut rec = self.debug.io_stats[i];
            match kind {
                IoKind::Read => {
                    if rec.reads < u64::MAX {
                        rec.reads = rec.reads + 1;
                    }
                },
                IoKind::Write => {
                    if rec.writes < u64::MAX {
                        rec.writes = rec.writes + 1;
                    }
                },
                IoKind::Execute => {
                    if rec.execute < u64::MAX {
                        rec.execute = rec.execute + 1;
                    }
                },
            }
            self.debug.io_stats.set(i, rec);
        }
    }

    /// What a bus read does to the controller port at 0x4016 (or 0x4017).
    pub open spec fn port_after_read(p: Port) -> Port {
        if p.strobe {
            p
        } else {
            Port { shift: (p.shift >> 1u8) | 0x80, ..p }
        }
    }

    /// The PPU after a bus read of `addr`: the register's read effect, then
    /// the cycle's three dots.
    pub open spec fn ppu_after_read(&self, addr: u16) -> Ppu {
        match read_target(addr) {
            ReadTarget::PpuRegister(reg) => self.ppu.after_register_read(reg, self.cartridge.chr@),
            _ => self.ppu,
        }.after_cpu_cycle()
    }

    /// The APU before the cycle's step of a bus read of `addr`: reading
    /// the status register acknowledges the frame interrupt.
    pub open spec fn apu_read_effect(&self, addr: u16) -> Apu {
        if read_target(addr) == ReadTarget::Apu && addr == 0x4015 {
            Apu { frame_irq: false, ..self.apu }
        } else {
            self.apu
        }
    }

    /// The devices after a bus read of `addr`: PPU and APU as above, the
    /// DMA request of the APU's step, everything else but ports as it was.
    pub open spec fn devices_after_read(&self, after: System, addr: u16) -> bool {
        &&& after.ppu == self.ppu_after_read(addr)
        &&& after.apu == self.apu_read_effect(addr).next()
        &&& after.dmc_dma_request == self.apu_read_effect(addr).step_request()
        &&& after.wram == self.wram
        &&& after.cartridge == self.cartridge
        &&& after.oam_dma_page == self.oam_dma_page
        &&& after.model == self.model
        &&& self.ports_after_read(after, addr)
    }

    /// The APU before the cycle's step of a bus write: the register write,
    /// when `addr` reaches the APU.
    pub open spec fn apu_write_effect(&self, addr: u16, data: u8) -> Apu {
        match write_target(addr) {
            WriteTarget::Apu | WriteTarget::PortsAndApu => self.apu.after_write(addr, data),
            _ => self.apu,
        }
    }

    /// The devices after a bus write of `data` to `addr`: the addressed
    /// PPU register, APU register or cartridge RAM takes it, no other
    /// device does, and then the cycle's APU step and PPU dots follow.
    pub open spec fn devices_after_write(&self, after: System, addr: u16, data: u8) -> bool {
        &&& after.apu == self.apu_write_effect(addr, data).next()
        &&& after.dmc_dma_request == self.apu_write_effect(addr, data).step_request()
        &&& after.model == self.model
        &&& match write_target(addr) {
            WriteTarget::PpuRegister(reg) => {
                &&& after.ppu == (Ppu {
                    oam: after.ppu.oam,
                    nametables: after.ppu.nametables,
                    palette: after.ppu.palette,
                    ..self.ppu.regs_after_write(reg, data)
                }).after_cpu_cycle()
                &&& self.ppu.memories_after_write(after.ppu, reg, data)
                &&& after.cartridge.prg_rom == self.cartridge.prg_rom
                &&& after.cartridge.prg_ram == self.cartridge.prg_ram
                &&& after.cartridge.chr_is_ram == self.cartridge.chr_is_ram
                &&& after.cartridge.chr@ == if reg == 7 && self.ppu.vram_addr < 0x2000
                    && self.cartridge.chr_is_ram {
                    self.cartridge.chr@.update(self.ppu.vram_addr as int, data)
                } else {
                    self.cartridge.chr@
                }
            },
            WriteTarget::Cartridge => {
                &&& after.ppu == self.ppu.after_cpu_cycle()
                &&& after.cartridge.prg_rom == self.cartridge.prg_rom
                &&& after.cartridge.chr == self.cartridge.chr
                &&& after.cartridge.chr_is_ram == self.cartridge.chr_is_ram
                &&& after.cartridge.prg_ram@ == if !self.cartridge.is_empty() && 0x6000 <= addr
                    < 0x8000 {
                    self.cartridge.prg_ram@.update(addr - 0x6000, data)
                } else {
                    self.cartridge.prg_ram@
                }
            },
            _ => {
                &&& after.ppu == self.ppu.after_cpu_cycle()
                &&& after.cartridge == self.cartridge
            },
        }
    }

    /// The controller ports after a bus read of `addr`.
    pub open spec fn ports_after_read(&self, after: System, addr: u16) -> bool {
        &&& after.port1 == if read_target(addr) == ReadTarget::Port1 {
            Self::port_after_read(self.port1)
        } else {
            self.port1
        }
        &&& after.port2 == if read_target(addr) == ReadTarget::Port2 {
            Self::port_after_read(self.port2)
        } else {
            self.port2
        }
    }

    /// The controller ports after a bus write of `data` to `addr`: 0x4016
    /// strobes both and latches their buttons; other writes leave them.
    pub open spec fn ports_after_write(&self, after: System, addr: u16, data: u8) -> bool {
        if write_target(addr) == WriteTarget::PortsAndApu {
            &&& after.port1 == (Port { strobe: data & 1 == 1, shift: self.port1.buttons, ..self.port1 })
            &&& after.port2 == (Port { strobe: data & 1 == 1, shift: self.port2.buttons, ..self.port2 })
        } else {
            after.port1 == self.port1 && after.port2 == self.port2
        }
    }

    /// The I/O statistics after counting an access of `kind` at `addr`.
    pub open spec fn stats_after(&self, addr: u16, kind: IoKind) -> Seq<IoStatsRecord> {
        if self.debug.options.track_io_stats {
            let rec = self.debug.io_stats@[addr as int];
            self.debug.io_stats@.update(
                addr as int,
                match kind {
                    IoKind::Read => IoStatsRecord { reads: bump(rec.reads), ..rec },
                    IoKind::Write => IoStatsRecord { writes: bump(rec.writes), ..rec },
                    IoKind::Execute => IoStatsRecord { execute: bump(rec.execute), ..rec },
                },
            )
        } else {
            self.debug.io_stats@
        }
    }

    /// A bus read: the addressed device answers (with its read side
    /// effects), the bus is clocked one CPU cycle, and the latch takes the
    /// result. The result is exactly what `peek` gives beforehand.
    fn read(&mut self, addr: u16) -> (r: u8)
        requires
            old(self).wf(),
            old(self).dmc_dma_request.is_none(),
            old(self).has_room(1),
        ensures
            old(self).bus_cycle(*final(self)),
            old(self).dmc_quiet() ==> final(self).dmc_quiet() && final(self).dmc_dma_request.is_none(),
            r == old(self).peek_value(addr),
            final(self).open_bus_value == r,
            final(self).wram == old(self).wram,
            final(self).debug == old(self).debug,
            final(self).oam_dma_page == old(self).oam_dma_page,
            final(self).cartridge == old(self).cartridge,
            old(self).devices_after_read(*final(self), addr),
            old(self).ports_after_read(*final(self), addr),
    {
        let (value, undefined_bits) = match decode_read(addr) {
            ReadTarget::Wram(i) => (self.wram[i as usize], 0u8),
            ReadTarget::PpuRegister(reg) => (self.ppu.system_bus_read(&self.cartridge, reg), 0u8),
            ReadTarget::OamDma => (0u8, 0xffu8),
            ReadTarget::Port1 => (self.port1.read(), 0xe0u8),
            ReadTarget::Port2 => (self.port2.read(), 0xe0u8),
            ReadTarget::Apu => self.apu.read(addr),
            ReadTarget::Cartridge => self.cartridge.system_bus_read(addr),
        };
        self.step_for_cpu_cycle();
        self.apply_open_bus_bits_mut(value, undefined_bits)
    }

    /// Reads the bus without side effects, for debuggers: same device
    /// values and open-bus filling as a read, but no latch update, no
    /// register side effect and no clocking.
    pub fn peek(&self, addr: u16) -> (r: u8)
        requires
            self.wf(),
        ensures
            r == self.peek_value(addr),
    {
        let (value, undefined_bits) = match decode_read(addr) {
            ReadTarget::Wram(i) => (self.wram[i as usize], 0u8),
            ReadTarget::PpuRegister(reg) => (self.ppu.system_bus_peek(reg), 0u8),
            ReadTarget::OamDma => (0u8, 0xffu8),
            ReadTarget::Port1 => (self.port1.peek(), 0xe0u8),
            ReadTarget::Port2 => (self.port2.peek(), 0xe0u8),
            ReadTarget::Apu => self.apu.peek(addr),
            ReadTarget::Cartridge => self.cartridge.system_bus_peek(addr),
        };
        self.apply_open_bus_bits(value, undefined_bits)
    }

    /// A CPU read of data.
    pub fn cpu_read(&mut self, addr: u16) -> (r: u8)
        requires
            old(self).wf(),
            old(self).dmc_dma_request.is_none(),
            old(self).has_room(1),
        ensures
            old(self).bus_cycle(*final(self)),
            old(self).devices_after_read(*final(self), addr),
            old(self).ports_after_read(*final(self), addr),
            final(self).debug.io_stats@ == old(self).stats_after(addr, IoKind::Read),
            final(self).oam_dma_page == old(self).oam_dma_page,
            old(self).dmc_quiet() ==> final(self).dmc_quiet() && final(self).dmc_dma_request.is_none(),
            r == old(self).peek_value(addr),
            final(self).open_bus_value == r,
            final(self).wram == old(self).wram,
            final(self).cartridge == old(self).cartridge,
            final(self).debug.watch_hit == (old(self).debug.watch_hit || (
            old(self).debug.options.track_watchpoints && watched(
                old(self).debug.watch_points@,
                addr,
                WatchOps { bits: 0b1 },
            ))),
    {
        self.check_watch_points(addr, WatchOps::read());
        self.record_io(addr, IoKind::Read);
        self.read(addr)
    }

    /// One of the superfluous reads the CPU makes. It has the side effects
    /// of any read; only watch points tell it apart.
    pub fn dummy_cpu_read(&mut self, addr: u16)
        requires
            old(self).wf(),
            old(self).dmc_dma_request.is_none(),
            old(self).has_room(1),
        ensures
            old(self).bus_cycle(*final(self)),
            old(self).devices_after_read(*final(self), addr),
            old(self).ports_after_read(*final(self), addr),
            final(self).debug.io_stats@ == old(self).stats_after(addr, IoKind::Read),
            final(self).oam_dma_page == old(self).oam_dma_page,
            old(self).dmc_quiet() ==> final(self).dmc_quiet() && final(self).dmc_dma_request.is_none(),
            final(self).open_bus_value == old(self).peek_value(addr),
            final(self).wram == old(self).wram,
            final(self).cartridge == old(self).cartridge,
            final(self).debug.watch_hit == (old(self).debug.watch_hit || (
            old(self).debug.options.track_watchpoints && watched(
                old(self).debug.watch_points@,
                addr,
                WatchOps { bits: 0b1001 },
            ))),
    {
        let ops = WatchOps::dummy().union(WatchOps::read());
        assert(0b1000u8 | 0b1u8 == 0b1001u8) by (bit_vector);
        self.check_watch_points(addr, ops);
        self.record_io(addr, IoKind::Read);
        self.read(addr);
    }

    /// A CPU read of an instruction byte.
    pub fn cpu_fetch(&mut self, addr: u16) -> (r: u8)
        requires
            old(self).wf(),
            old(self).dmc_dma_request.is_none(),
            old(self).has_room(1),
        ensures
            old(self).bus_cycle(*final(self)),
            old(self).devices_after_read(*final(self), addr),
            old(self).ports_after_read(*final(self), addr),
            final(self).debug.io_stats@ == old(self).stats_after(addr, IoKind::Execute),
            final(self).oam_dma_page == old(self).oam_dma_page,
            old(self).dmc_quiet() ==> final(self).dmc_quiet() && final(self).dmc_dma_request.is_none(),
            r == old(self).peek_value(addr),
            final(self).open_bus_value == r,
            final(self).wram == old(self).wram,
            final(self).cartridge == old(self).cartridge,
            final(self).debug.watch_hit == (old(self).debug.watch_hit || (
            old(self).debug.options.track_watchpoints && watched(
                old(self).debug.watch_points@,
                addr,
                WatchOps { bits: 0b100 },
            ))),
    {
        self.check_watch_points(addr, WatchOps::execute());
        self.record_io(addr, IoKind::Execute);
        self.read(addr)
    }

    /// A bus write: the addressed devices take the byte (0x4016 reaches
    /// both controller ports and the APU; 0x4014 records the OAM DMA page
    /// for the CPU), the latch takes it, and the bus is clocked one cycle.
    fn write(&mut self, addr: u16, data: u8)
        requires
            old(self).wf(),
            old(self).dmc_dma_request.is_none(),
            old(self).has_room(1),
        ensures
            old(self).bus_cycle(*final(self)),
            final(self).open_bus_value == data,
            final(self).wram@ == match write_target(addr) {
                WriteTarget::Wram(i) => old(self).wram@.update(i as int, data),
                _ => old(self).wram@,
            },
            final(self).oam_dma_page == if write_target(addr) == WriteTarget::OamDma {
                Some(data)
            } else {
                old(self).oam_dma_page
            },
            final(self).debug == old(self).debug,
            old(self).devices_after_write(*final(self), addr, data),
            old(self).ports_after_write(*final(self), addr, data),
            old(self).dmc_quiet() && addr != 0x4015 ==> final(self).dmc_quiet()
                && final(self).dmc_dma_request.is_none(),
    {
        match decode_write(addr) {
            WriteTarget::Wram(i) => {
                self.wram.set(i as usize, data);
            },
            WriteTarget::PpuRegister(reg) => {
                self.ppu.system_bus_write(&mut self.cartridge, reg, data);
            },
            WriteTarget::OamDma => {
                self.oam_dma_page = Some(data);
            },
            WriteTarget::PortsAndApu => {
                self.port1.write_register(data);
                self.port2.write_register(data);
                self.apu.write(addr, data);
            },
            WriteTarget::Apu => {
                self.apu.write(addr, data);
            },
            WriteTarget::Cartridge => {
                self.cartridge.system_bus_write(addr, data);
            },
        }
        self.open_bus_value = data;
        self.step_for_cpu_cycle();
    }

    /// A CPU write.
    pub fn cpu_write(&mut self, addr: u16, data: u8)
        requires
            old(self).wf(),
            old(self).dmc_dma_request.is_none(),
            old(self).has_room(1),
        ensures
            old(self).bus_cycle(*final(self)),
            old(self).devices_after_write(*final(self), addr, data),
            old(self).ports_after_write(*final(self), addr, data),
            old(self).dmc_quiet() && addr != 0x4015 ==> final(self).dmc_quiet()
                && final(self).dmc_dma_request.is_none(),
            final(self).debug.io_stats@ == old(self).stats_after(addr, IoKind::Write),
            final(self).open_bus_value == data,
            final(self).wram@ == match write_target(addr) {
                WriteTarget::Wram(i) => old(self).wram@.update(i as int, data),
                _ => old(self).wram@,
            },
            final(self).oam_dma_page == if write_target(addr) == WriteTarget::OamDma {
                Some(data)
            } else {
                old(self).oam_dma_page
            },
            final(self).debug.watch_hit == (old(self).debug.watch_hit || (
            old(self).debug.options.track_watchpoints && watched(
                old(self).debug.watch_points@,
                addr,
                WatchOps { bits: 0b10 },
            ))),
    {
        self.check_watch_points(addr, WatchOps::write());
        self.record_io(addr, IoKind::Write);
        self.write(addr, data);
    }

    /// One of the superfluous writes the CPU makes; it has the effects of
    /// any write, only watch points tell it apart.
    pub fn dummy_cpu_write(&mut self, addr: u16, data: u8)
        requires
            old(self).wf(),
            old(self).dmc_dma_request.is_none(),
            old(self).has_room(1),
        ensures
            old(self).bus_cycle(*final(self)),
            old(self).devices_after_write(*final(self), addr, data),
            old(self).ports_after_write(*final(self), addr, data),
            old(self).dmc_quiet() && addr != 0x4015 ==> final(self).dmc_quiet()
                && final(self).dmc_dma_request.is_none(),
            final(self).debug.io_stats@ == old(self).stats_after(addr, IoKind::Write),
            final(self).open_bus_value == data,
            final(self).wram@ == match write_target(addr) {
                WriteTarget::Wram(i) => old(self).wram@.update(i as int, data),
                _ => old(self).wram@,
            },
            final(self).oam_dma_page == if write_target(addr) == WriteTarget::OamDma {
                Some(data)
            } else {
                old(self).oam_dma_page
            },
            final(self).debug.watch_hit == (old(self).debug.watch_hit || (
            old(self).debug.options.track_watchpoints && watched(
                old(self).debug.watch_points@,
                addr,
                WatchOps { bits: 0b1010 },
            ))),
    {
        let ops = WatchOps::dummy().union(WatchOps::write());
        assert(0b1000u8 | 0b10u8 == 0b1010u8) by (bit_vector);
        self.check_watch_points(addr, ops);
        self.record_io(addr, IoKind::Write);
        self.write(addr, data);
    }

    /// Index of the watch point on `addr`, if there is one.
    fn find_watch(&self, addr: u16) -> (r: Option<usize>)
        ensures
            r matches Some(i) ==> i < self.debug.watch_points.len()
                && self.debug.watch_points@[i as int].address == addr,
            r.is_none() ==> forall|j: int|
                0 <= j < self.debug.watch_points.len() ==> self.debug.watch_points@[j].address != addr,
    {
        let n = self.debug.watch_points.len();
        let mut i: usize = 0;
        while i < n
            invariant
                n == self.debug.watch_points.len(),
                i <= n,
                forall|j: int| 0 <= j < i ==> self.debug.watch_points@[j].address != addr,
            decreases n - i,
        {
            if self.debug.watch_points[i].address == addr {
                return Some(i);
            }
            i = i + 1;
        }
        None
    }

    /// Watches `addr` for the operations in `ops`, replacing any watch
    /// point already on that address.
    pub fn add_watch(&mut self, addr: u16, ops: WatchOps)
        requires
            old(self).wf(),
        ensures
            final(self).wf(),
            forall|w: WatchPoint|
                final(self).debug.watch_points@.contains(w) <==> (w == (WatchPoint { address: addr, ops })
                    || (old(self).debug.watch_points@.contains(w) && w.address != addr)),
            *final(self) == (System {
                debug: NoCloneDebugState { watch_points: final(self).debug.watch_points, ..old(self).debug },
                ..*old(self)
            }),
    {
        let ghost w0 = self.debug.watch_points@;
        let new_point = WatchPoint { address: addr, ops };
        match self.find_watch(addr) {
            Some(i) => {
                self.debug.watch_points.swap_remove(i);
                let ghost w1 = self.debug.watch_points@;
                assert forall|w: WatchPoint| w1.contains(w) <==> (w0.contains(w) && w.address != addr) by {
                    if w1.contains(w) {
                        let k = choose|k: int| 0 <= k < w1.len() && w1[k] == w;
                        if k == i {
                            assert(w0[w0.len() - 1] == w);
                        } else {
                            assert(w0[k] == w);
                        }
                        let j = choose|j: int| 0 <= j < w0.len() && w0[j] == w;
                        assert(j != i);
                    }
                    if w0.contains(w) && w.address != addr {
                        let j = choose|j: int| 0 <= j < w0.len() && w0[j] == w;
                        assert(j != i);
                        if j == w0.len() - 1 {
                            assert(w1[i as int] == w);
                        } else {
                            assert(w1[j] == w);
                        }
                    }
                }
                assert forall|a: int, b: int|
                    0 <= a < w1.len() && 0 <= b < w1.len() && w1[a].address == w1[b].address
                    implies a == b by {
                    let ia = if a == i { w0.len() - 1 } else { a };
                    let ib = if b == i { w0.len() - 1 } else { b };
                    assert(w1[a] == w0[ia]);
                    assert(w1[b] == w0[ib]);
                }
            },
            None => {
                assert forall|w: WatchPoint| w0.contains(w) implies w.address != addr by {
                    let j = choose|j: int| 0 <= j < w0.len() && w0[j] == w;
                }
            },
        }
        let ghost w1 = self.debug.watch_points@;
        self.debug.watch_points.push(new_point);
        let ghost w2 = self.debug.watch_points@;
        assert forall|w: WatchPoint| w2.contains(w) <==> (w == new_point || w1.contains(w)) by {
            if w2.contains(w) {
                let k = choose|k: int| 0 <= k < w2.len() && w2[k] == w;
                if k < w1.len() {
                    assert(w1[k] == w);
                }
            }
            if w1.contains(w) {
                let k = choose|k: int| 0 <= k < w1.len() && w1[k] == w;
                assert(w2[k] == w);
            }
            if w == new_point {
                assert(w2[w1.len() as int] == w);
            }
        }
        assert forall|a: int, b: int|
            0 <= a < w2.len() && 0 <= b < w2.len() && w2[a].address == w2[b].address implies a == b by {
            if a < w1.len() && b == w1.len() {
                assert(w1.contains(w1[a]));
            }
            if b < w1.len() && a == w1.len() {
                assert(w1.contains(w1[b]));
            }
        }
    }

    /// Clears the sticky watch-hit flag.
    pub fn clear_watch_hit(&mut self)
        ensures
            *final(self) == (System {
                debug: NoCloneDebugState { watch_hit: false, ..old(self).debug },
                ..*old(self)
            }),
    {
        self.debug.watch_hit = false;
    }

    /// Serves an outstanding DMC DMA request: one halt cycle, then the
    /// fetch of the requested byte, which goes to the APU. Returns the CPU
    /// cycles this took (none when nothing was outstanding).
    pub fn serve_dmc_dma(&mut self) -> (r: u64)
        requires
            old(self).wf(),
            old(self).has_room(2),
        ensures
            final(self).wf(),
            final(self).dmc_dma_request.is_none(),
            old(self).dmc_dma_request.is_none() ==> r == 0 && *final(self) == *old(self),
            old(self).dmc_dma_request.is_some() ==> r == 2,
            final(self).apu.clock == old(self).apu.clock + r,
            old(self).ppu.clock <= final(self).ppu.clock <= old(self).ppu.clock + 3 * r,
            old(self).ppu.breakpoint.is_none() ==> final(self).ppu.clock == old(self).ppu.clock + 3 * r,
            final(self).ppu.breakpoint == old(self).ppu.breakpoint,
            final(self).ppu.lines_per_frame == old(self).ppu.lines_per_frame,
            final(self).ppu.frames >= old(self).ppu.frames,
            final(self).ppu.frames == old(self).ppu.frames ==> final(self).ppu.frame_mark()
                == old(self).ppu.frame_mark(),
            final(self).ppu.pixel_format == old(self).ppu.pixel_format,
            final(self).model == old(self).model,
            final(self).debug.options == old(self).debug.options,
            final(self).debug.watch_points == old(self).debug.watch_points,
            final(self).cartridge.prg_rom == old(self).cartridge.prg_rom,
            final(self).framebuffer.len() == old(self).framebuffer.len(),
            final(self).wram == old(self).wram,
            final(self).oam_dma_page == old(self).oam_dma_page,
            old(self).dmc_dma_request.is_some() ==> final(self).apu.dmc_buffer_full
                && final(self).apu.dmc_buffer == final(self).open_bus_value,
    {
        match self.dmc_dma_request.take() {
            Some(q) => {
                self.step_for_cpu_cycle();
                let data = self.read(q.address);
                self.apu.dmc_dma_complete(data);
                2
            },
            None => 0,
        }
    }

    /// `after` is `self` advanced by `n` CPU cycles of bus activity, with no
    /// DMA request left outstanding.
    pub open spec fn advanced(&self, after: System, n: int) -> bool {
        &&& after.wf()
        &&& after.dmc_dma_request.is_none()
        &&& after.apu.clock == self.apu.clock + n
        &&& self.ppu.clock <= after.ppu.clock <= self.ppu.clock + 3 * n
        &&& (self.ppu.breakpoint.is_none() ==> after.ppu.clock == self.ppu.clock + 3 * n)
        &&& after.ppu.breakpoint == self.ppu.breakpoint
        &&& after.ppu.lines_per_frame == self.ppu.lines_per_frame
        &&& after.ppu.frames >= self.ppu.frames
        &&& after.ppu.pixel_format == self.ppu.pixel_format
        &&& (after.ppu.frames == self.ppu.frames ==> after.ppu.frame_mark() == self.ppu.frame_mark())
        &&& after.model == self.model
        &&& after.debug.options == self.debug.options
        &&& after.debug.watch_points == self.debug.watch_points
        &&& after.cartridge.prg_rom == self.cartridge.prg_rom
        &&& after.framebuffer.len() == self.framebuffer.len()
    }
}

/// Bus activity adds up.
pub proof fn lemma_advanced_trans(s0: System, s1: System, s2: System, n1: int, n2: int)
    requires
        s0.advanced(s1, n1),
        s1.advanced(s2, n2),
    ensures
        s0.advanced(s2, n1 + n2),
{
}

/// After a write of `v` (which leaves `v` in the latch), a read whose
/// undriven mask is `m` and driven value `t` returns `(t & !m) | (v & m)`.
pub proof fn lemma_open_bus_after_write(s: System, v: u8, addr: u16)
    requires
        s.open_bus_value == v,
    ensures
        s.peek_value(addr) == (s.bus_value(addr).0 & !s.bus_value(addr).1) | (v
            & s.bus_value(addr).1),
{
}

/// Clock ratio: along any run of bus cycles from a state with no PPU
/// breakpoint, after N cycles the CPU clock has advanced by N and the PPU
/// clock by 3 × N, so a run that starts in ratio stays in ratio.
pub proof fn lemma_clock_ratio(run: Seq<System>)
    requires
        run.len() >= 1,
        forall|i: int| 0 <= i < run.len() - 1 ==> #[trigger] run[i].bus_cycle(run[i + 1]),
        run[0].ppu.breakpoint.is_none(),
    ensures
        forall|i: int|
            0 <= i < run.len() ==> {
                &&& (#[trigger] run[i]).apu.clock == run[0].apu.clock + i
                &&& run[i].ppu.clock == run[0].ppu.clock + 3 * i
                &&& run[i].ppu.breakpoint.is_none()
            },
        run[0].clocks_in_ratio() ==> run.last().clocks_in_ratio(),
    decreases run.len(),
{
    if run.len() > 1 {
        let pre = run.drop_last();
        let n = run.len() - 1;
        assert forall|i: int| 0 <= i < pre.len() - 1 implies #[trigger] pre[i].bus_cycle(pre[i + 1]) by {
            assert(run[i].bus_cycle(run[i + 1]));
        }
        lemma_clock_ratio(pre);
        assert(run[n - 1].bus_cycle(run[(n - 1) + 1]));
        assert(pre[n - 1] == run[n - 1]);
        assert forall|i: int| 0 <= i < run.len() implies {
            &&& (#[trigger] run[i]).apu.clock == run[0].apu.clock + i
            &&& run[i].ppu.clock == run[0].ppu.clock + 3 * i
            &&& run[i].ppu.breakpoint.is_none()
        } by {
            if i < n {
                assert(pre[i] == run[i]);
            }
        }
    }
}

/// DMA requests never pile up: a bus cycle raises a request only when none
/// was awaiting its byte, and while one awaits, no bus cycle raises another.
pub proof fn lemma_single_dma_request(before: System, after: System)
    requires
        before.wf(),
        before.bus_cycle(after),
    ensures
        after.dmc_dma_request.is_some() ==> !before.apu.dma_awaiting,
        before.apu.dma_awaiting ==> after.dmc_dma_request.is_none(),
        after.dmc_dma_request.is_some() ==> after.apu.dma_awaiting,
        before.dmc_dma_request.is_some() ==> after.dmc_dma_request.is_none(),
{
}

/// Mirrors read alike: two addresses that decode to the same WRAM cell or
/// the same PPU register give the same value and leave PPU, APU, DMA
/// request and ports in the same state.
pub proof fn lemma_mirrored_reads_agree(s: System, a: u16, b: u16, after_a: System, after_b: System)
    requires
        read_target(a) == read_target(b),
        read_target(a) is Wram || read_target(a) is PpuRegister,
        s.devices_after_read(after_a, a),
        s.devices_after_read(after_b, b),
    ensures
        s.peek_value(a) == s.peek_value(b),
        after_a.ppu == after_b.ppu,
        after_a.apu == after_b.apu,
        after_a.dmc_dma_request == after_b.dmc_dma_request,
        after_a.port1 == after_b.port1 && after_a.port2 == after_b.port2,
        after_a.wram == after_b.wram,
{
}

/// Mirrors write alike: two addresses that decode to the same WRAM cell or
/// the same PPU register leave the APU, the DMA request and every device
/// memory in the same state (the PPU registers follow from
/// `devices_after_write`, which fixes them from the register index alone).
pub proof fn lemma_mirrored_writes_agree(s: System, a: u16, b: u16, data: u8, after_a: System, after_b: System)
    requires
        write_target(a) == write_target(b),
        write_target(a) is Wram || write_target(a) is PpuRegister,
        s.devices_after_write(after_a, a, data),
        s.devices_after_write(after_b, b, data),
    ensures
        after_a.apu == after_b.apu,
        after_a.dmc_dma_request == after_b.dmc_dma_request,
        after_a.ppu.oam@ == after_b.ppu.oam@,
        after_a.ppu.nametables@ == after_b.ppu.nametables@,
        after_a.ppu.palette@ == after_b.ppu.palette@,
        after_a.cartridge.chr@ == after_b.cartridge.chr@,
        after_a.cartridge.prg_ram@ == after_b.cartridge.prg_ram@,
{
}

} // verus!
