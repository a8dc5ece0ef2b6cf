//! The audio unit as the bus sees it: the frame sequencer with its interrupt,
//! the DMC sample fetcher that asks the CPU for DMA, and the status register.
use vstd::prelude::*;

verus! {

/// CPU cycles in one pass of the four-step frame sequence; it raises the
/// frame interrupt at the end of each pass.
pub const FOUR_STEP_CYCLES: u32 = 29830;
/// CPU cycles in one pass of the five-step sequence, which raises no interrupt.
pub const FIVE_STEP_CYCLES: u32 = 37282;

/// The DMC has no access to the bus from within `Apu::step`, so it asks for
/// the byte at `address`; the answer comes back through `dmc_dma_complete`.
#[derive(Clone, Copy, PartialEq, Eq, Debug, Structural)]
pub struct DmcDmaRequest {
    pub address: u16,
}

/// CPU cycles per output bit for each DMC rate index (NTSC).
pub open spec fn dmc_period_of(rate: u8) -> u16 {
    if rate == 0 { 428 } else if rate == 1 { 380 } else if rate == 2 { 340 }
    else if rate == 3 { 320 } else if rate == 4 { 286 } else if rate == 5 { 254 }
    else if rate == 6 { 226 } else if rate == 7 { 214 } else if rate == 8 { 190 }
    else if rate == 9 { 160 } else if rate == 10 { 142 } else if rate == 11 { 128 }
    else if rate == 12 { 106 } else if rate == 13 { 84 } else if rate == 14 { 72 }
    else { 54 }
}

pub fn dmc_period(rate: u8) -> (r: u16)
    ensures
        r == dmc_period_of(rate),
        r <= 428,
{
    if rate == 0 { 428 } else if rate == 1 { 380 } else if rate == 2 { 340 }
    else if rate == 3 { 320 } else if rate == 4 { 286 } else if rate == 5 { 254 }
    else if rate == 6 { 226 } else if rate == 7 { 214 } else if rate == 8 { 190 }
    else if rate == 9 { 160 } else if rate == 10 { 142 } else if rate == 11 { 128 }
    else if rate == 12 { 106 } else if rate == 13 { 84 } else if rate == 14 { 72 }
    else { 54 }
}

/// The address after `a` in a sample: it wraps from 0xFFFF to 0x8000.
pub open spec fn next_sample_address(a: u16) -> u16 {
    if a == 0xffff { 0x8000 } else { (a + 1) as u16 }
}

#[derive(Clone, Copy, Debug)]
pub struct Apu {
    /// CPU cycles stepped; equal to the CPU clock.
    pub clock: u64,
    /// Cycles into the current frame-sequencer pass.
    pub frame_counter: u32,
    pub five_step: bool,
    pub irq_inhibit: bool,
    pub frame_irq: bool,
    /// The DMC raises its interrupt when a sample ends while this is set.
    pub dmc_irq_enabled: bool,
    pub dmc_irq: bool,
    /// DMC rate index (0..16), sample start and length registers.
    pub dmc_rate: u8,
    pub dmc_start: u8,
    pub dmc_length: u8,
    /// Where the next sample byte comes from, and how many are left.
    pub dmc_address: u16,
    pub dmc_bytes_remaining: u16,
    pub dmc_buffer: u8,
    pub dmc_buffer_full: bool,
    /// Cycles until the buffered byte has been played out.
    pub dmc_timer: u16,
    /// A DMA request has been handed out and its byte has not come back.
    pub dma_awaiting: bool,
}

impl Apu {
    pub open spec fn wf(&self) -> bool {
        &&& self.frame_counter < FIVE_STEP_CYCLES
        &&& self.dmc_rate < 16
    }

    pub open spec fn status_value(&self) -> u8 {
        (if self.dmc_irq { 0x80u8 } else { 0u8 }) | (if self.frame_irq { 0x40u8 } else { 0u8 }) | (if self.dmc_bytes_remaining > 0 {
            0x10u8
        } else {
            0u8
        })
    }

    /// What a read of `addr` (an APU register) gives, with its undriven bits:
    /// only the status register 0x4015 is readable, and its bit 5 is open bus.
    pub open spec fn bus_value(&self, addr: u16) -> (u8, u8) {
        if addr == 0x4015 {
            (self.status_value(), 0x20)
        } else {
            (0, 0xff)
        }
    }

    pub open spec fn sequence_cycles(&self) -> u32 {
        if self.five_step { FIVE_STEP_CYCLES } else { FOUR_STEP_CYCLES }
    }

    /// Whether the step from this state raises a DMA request.
    pub open spec fn requests_dma(&self) -> bool {
        !self.dma_awaiting && !(self.dmc_buffer_full && self.dmc_timer != 0)
            && self.dmc_bytes_remaining > 0
    }

    /// The request one `step` returns.
    pub open spec fn step_request(&self) -> Option<DmcDmaRequest> {
        if self.requests_dma() {
            Some(DmcDmaRequest { address: self.dmc_address })
        } else {
            None
        }
    }

    /// The state after one `step`: one cycle on, the frame sequencer
    /// advanced (raising its interrupt at the end of a four-step pass
    /// unless inhibited), the buffered sample byte played for one cycle.
    pub open spec fn next(&self) -> Apu {
        let wrapped = self.frame_counter + 1 >= self.sequence_cycles();
        let playing = self.dmc_buffer_full && self.dmc_timer != 0;
        Apu {
            clock: (self.clock + 1) as u64,
            frame_counter: if wrapped { 0 } else { (self.frame_counter + 1) as u32 },
            frame_irq: self.frame_irq || (wrapped && !self.five_step && !self.irq_inhibit),
            dmc_buffer_full: playing,
            dmc_timer: if playing { (self.dmc_timer - 1) as u16 } else { self.dmc_timer },
            dma_awaiting: self.dma_awaiting || self.requests_dma(),
            ..*self
        }
    }

    /// The power-on state, with the clock at `clock`.
    pub open spec fn powered_on(clock: u64) -> Apu {
        Apu {
            clock,
            frame_counter: 0,
            five_step: false,
            irq_inhibit: false,
            frame_irq: false,
            dmc_irq_enabled: false,
            dmc_irq: false,
            dmc_rate: 0,
            dmc_start: 0,
            dmc_length: 0,
            dmc_address: 0xc000,
            dmc_bytes_remaining: 0,
            dmc_buffer: 0,
            dmc_buffer_full: false,
            dmc_timer: 0,
            dma_awaiting: false,
        }
    }

    /// The state after a write of `data` to register `addr`.
    pub open spec fn after_write(&self, addr: u16, data: u8) -> Apu {
        if addr == 0x4010 {
            let enabled = data & 0x80 != 0;
            Apu {
                dmc_rate: data & 0x0f,
                dmc_irq_enabled: enabled,
                dmc_irq: self.dmc_irq && enabled,
                ..*self
            }
        } else if addr == 0x4012 {
            Apu { dmc_start: data, ..*self }
        } else if addr == 0x4013 {
            Apu { dmc_length: data, ..*self }
        } else if addr == 0x4015 {
            let base = Apu { dmc_irq: false, ..*self };
            if data & 0x10 == 0 {
                Apu { dmc_bytes_remaining: 0, ..base }
            } else if self.dmc_bytes_remaining == 0 {
                Apu {
                    dmc_address: (0xc000 + 64 * self.dmc_start) as u16,
                    dmc_bytes_remaining: (16 * self.dmc_length + 1) as u16,
                    ..base
                }
            } else {
                base
            }
        } else if addr == 0x4017 {
            let inhibit = data & 0x40 != 0;
            Apu {
                five_step: data & 0x80 != 0,
                irq_inhibit: inhibit,
                frame_irq: self.frame_irq && !inhibit,
                frame_counter: 0,
                ..*self
            }
        } else {
            *self
        }
    }

    pub fn new() -> (r: Apu)
        ensures
            r == Apu::powered_on(0),
            r.wf(),
            r.clock == 0,
            !r.dma_awaiting,
            !r.frame_irq && !r.dmc_irq,
            r.dmc_bytes_remaining == 0,
    {
        Apu {
            clock: 0,
            frame_counter: 0,
            five_step: false,
            irq_inhibit: false,
            frame_irq: false,
            dmc_irq_enabled: false,
            dmc_irq: false,
            dmc_rate: 0,
            dmc_start: 0,
            dmc_length: 0,
            dmc_address: 0xc000,
            dmc_bytes_remaining: 0,
            dmc_buffer: 0,
            dmc_buffer_full: false,
            dmc_timer: 0,
            dma_awaiting: false,
        }
    }

    /// Power-on state; the clock keeps counting.
    pub fn power_cycle(&mut self)
        ensures
            *final(self) == Apu::powered_on(old(self).clock),
            final(self).wf(),
            final(self).clock == old(self).clock,
            !final(self).dma_awaiting,
            !final(self).frame_irq && !final(self).dmc_irq,
            final(self).dmc_bytes_remaining == 0,
    {
        let clock = self.clock;
        *self = Apu::new();
        self.clock = clock;
    }

    /// The reset line silences the DMC and clears the frame interrupt; an
    /// outstanding DMA request stays outstanding.
    pub fn reset(&mut self)
        requires
            old(self).wf(),
        ensures
            final(self).wf(),
            final(self).clock == old(self).clock,
            final(self).dma_awaiting == old(self).dma_awaiting,
            final(self).dmc_address == old(self).dmc_address,
            !final(self).frame_irq && !final(self).dmc_irq,
            final(self).dmc_bytes_remaining == 0,
    {
        self.frame_irq = false;
        self.dmc_irq = false;
        self.frame_counter = 0;
        self.dmc_bytes_remaining = 0;
    }

    /// The APU's interrupt line: the frame sequencer's or the DMC's.
    pub fn irq(&self) -> (r: bool)
        ensures
            r == (self.frame_irq || self.dmc_irq),
    {
        self.frame_irq || self.dmc_irq
    }

    /// Advances one CPU cycle. Returns a DMA request when the DMC needs a
    /// sample byte and none is outstanding; never more than one at a time.
    pub fn step(&mut self) -> (r: Option<DmcDmaRequest>)
        requires
            old(self).wf(),
            old(self).clock < u64::MAX,
        ensures
            final(self).wf(),
            *final(self) == old(self).next(),
            r == old(self).step_request(),
            final(self).clock == old(self).clock + 1,
            old(self).dma_awaiting ==> r.is_none() && final(self).dma_awaiting,
            r.is_some() ==> !old(self).dma_awaiting && final(self).dma_awaiting,
            r matches Some(q) ==> q.address == old(self).dmc_address,
            !old(self).dma_awaiting ==> (r.is_some() <==> (!final(self).dmc_buffer_full
                && old(self).dmc_bytes_remaining > 0)),
            final(self).dmc_address == old(self).dmc_address,
            final(self).dmc_bytes_remaining == old(self).dmc_bytes_remaining,
            final(self).dmc_buffer == old(self).dmc_buffer,
            final(self).dmc_buffer_full == (old(self).dmc_buffer_full && old(self).dmc_timer != 0),
            final(self).dmc_timer == if old(self).dmc_buffer_full && old(self).dmc_timer != 0 {
                (old(self).dmc_timer - 1) as u16
            } else {
                old(self).dmc_timer
            },
            final(self).dmc_rate == old(self).dmc_rate,
            final(self).five_step == old(self).five_step,
            final(self).irq_inhibit == old(self).irq_inhibit,
            final(self).frame_counter == if old(self).frame_counter + 1 >= old(self).sequence_cycles() {
                0
            } else {
                old(self).frame_counter + 1
            },
            final(self).frame_irq == (old(self).frame_irq || (old(self).frame_counter + 1
                >= old(self).sequence_cycles() && !old(self).five_step && !old(self).irq_inhibit)),
    {
        self.clock = self.clock + 1;

        let seq_len = if self.five_step { FIVE_STEP_CYCLES } else { FOUR_STEP_CYCLES };
        if self.frame_counter + 1 >= seq_len {
            self.frame_counter = 0;
            if !self.five_step && !self.irq_inhibit {
                self.frame_irq = true;
            }
        } else {
            self.frame_counter = self.frame_counter + 1;
        }

        if self.dmc_buffer_full {
            if self.dmc_timer == 0 {
                self.dmc_buffer_full = false;
            } else {
                self.dmc_timer = self.dmc_timer - 1;
            }
        }

        if !self.dma_awaiting && !self.dmc_buffer_full && self.dmc_bytes_remaining > 0 {
            self.dma_awaiting = true;
            Some(DmcDmaRequest { address: self.dmc_address })
        } else {
            None
        }
    }

    /// Hands the DMC the byte fetched for its outstanding request.
    pub fn dmc_dma_complete(&mut self, data: u8)
        requires
            old(self).wf(),
        ensures
            final(self).wf(),
            final(self).clock == old(self).clock,
            !final(self).dma_awaiting,
            final(self).dmc_buffer_full,
            final(self).dmc_buffer == data,
            final(self).dmc_address == next_sample_address(old(self).dmc_address),
            final(self).dmc_bytes_remaining == if old(self).dmc_bytes_remaining > 0 {
                (old(self).dmc_bytes_remaining - 1) as u16
            } else {
                0
            },
            final(self).frame_irq == old(self).frame_irq,
            final(self).dmc_irq == (old(self).dmc_irq || (old(self).dmc_irq_enabled
                && old(self).dmc_bytes_remaining == 1)),
            final(self).dmc_timer == dmc_period_of(old(self).dmc_rate) * 8,
    {
        self.dma_awaiting = false;
        self.dmc_buffer = data;
        self.dmc_buffer_full = true;
        self.dmc_timer = dmc_period(self.dmc_rate) * 8;
        self.dmc_address = if self.dmc_address == 0xffff { 0x8000 } else { self.dmc_address + 1 };
        if self.dmc_bytes_remaining > 0 {
            self.dmc_bytes_remaining = self.dmc_bytes_remaining - 1;
            if self.dmc_bytes_remaining == 0 && self.dmc_irq_enabled {
                self.dmc_irq = true;
            }
        }
    }

    /// A read of `addr` without side effects.
    pub fn peek(&self, addr: u16) -> (r: (u8, u8))
        ensures
            r == self.bus_value(addr),
    {
        if addr == 0x4015 {
            let dirq: u8 = if self.dmc_irq { 0x80 } else { 0 };
            let irq: u8 = if self.frame_irq { 0x40 } else { 0 };
            let dmc: u8 = if self.dmc_bytes_remaining > 0 { 0x10 } else { 0 };
            (dirq | irq | dmc, 0x20)
        } else {
            (0, 0xff)
        }
    }

    /// A read of `addr`; reading the status register acknowledges the frame
    /// interrupt.
    pub fn read(&mut self, addr: u16) -> (r: (u8, u8))
        requires
            old(self).wf(),
        ensures
            final(self).wf(),
            r == old(self).bus_value(addr),
            *final(self) == if addr == 0x4015 {
                Apu { frame_irq: false, ..*old(self) }
            } else {
                *old(self)
            },
    {
        let r = self.peek(addr);
        if addr == 0x4015 {
            self.frame_irq = false;
        }
        r
    }

    /// A write to the APU register at `addr`.
    pub fn write(&mut self, addr: u16, data: u8)
        requires
            old(self).wf(),
        ensures
            final(self).wf(),
            *final(self) == old(self).after_write(addr, data),
            final(self).clock == old(self).clock,
            final(self).dma_awaiting == old(self).dma_awaiting,
            addr == 0x4015 && data & 0x10 == 0 ==> final(self).dmc_bytes_remaining == 0,
            addr == 0x4015 && data & 0x10 != 0 && old(self).dmc_bytes_remaining == 0 ==> {
                &&& final(self).dmc_address == 0xc000 + 64 * old(self).dmc_start
                &&& final(self).dmc_bytes_remaining == 16 * old(self).dmc_length + 1
            },
            addr == 0x4017 ==> {
                &&& final(self).five_step == (data & 0x80 != 0)
                &&& final(self).irq_inhibit == (data & 0x40 != 0)
                &&& final(self).frame_irq == (old(self).frame_irq && data & 0x40 == 0)
                &&& final(self).frame_counter == 0
            },
            addr != 0x4017 ==> final(self).frame_irq == old(self).frame_irq,
            addr == 0x4010 ==> final(self).dmc_rate == data & 0x0f && final(self).dmc_irq_enabled
                == (data & 0x80 != 0) && final(self).dmc_irq == (old(self).dmc_irq && data & 0x80 != 0),
            addr == 0x4015 ==> !final(self).dmc_irq,
            addr != 0x4010 && addr != 0x4015 ==> final(self).dmc_irq == old(self).dmc_irq,
            addr == 0x4012 ==> final(self).dmc_start == data,
            addr == 0x4013 ==> final(self).dmc_length == data,
            addr != 0x4015 ==> final(self).dmc_bytes_remaining == old(self).dmc_bytes_remaining,
    {
        if addr == 0x4010 {
            assert(data & 0x0f < 16) by (bit_vector);
            self.dmc_rate = data & 0x0f;
            self.dmc_irq_enabled = data & 0x80 != 0;
            if !self.dmc_irq_enabled {
                self.dmc_irq = false;
            }
        } else if addr == 0x4012 {
            self.dmc_start = data;
        } else if addr == 0x4013 {
            self.dmc_length = data;
        } else if addr == 0x4015 {
            self.dmc_irq = false;
            if data & 0x10 == 0 {
                self.dmc_bytes_remaining = 0;
            } else if self.dmc_bytes_remaining == 0 {
                self.dmc_address = 0xc000 + 64 * (self.dmc_start as u16);
                self.dmc_bytes_remaining = 16 * (self.dmc_length as u16) + 1;
            }
        } else if addr == 0x4017 {
            self.five_step = data & 0x80 != 0;
            self.irq_inhibit = data & 0x40 != 0;
            if self.irq_inhibit {
                self.frame_irq = false;
            }
            self.frame_counter = 0;
        }
    }
}

} // verus!
