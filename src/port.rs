//! A standard controller on one of the two ports: a parallel-in, serial-out
//! shift register of eight button bits.
use vstd::prelude::*;

verus! {

/// The eight buttons, listed in the order the shift register reports them.
#[derive(Clone, Copy, PartialEq, Eq, Debug, Structural)]
pub enum PadButton {
    A,
    B,
    Select,
    Start,
    Up,
    Down,
    Left,
    Right,
}

/// The bit of a button in the report (A first, Right last).
pub open spec fn button_bit(b: PadButton) -> u8 {
    match b {
        PadButton::A => 0x01,
        PadButton::B => 0x02,
        PadButton::Select => 0x04,
        PadButton::Start => 0x08,
        PadButton::Up => 0x10,
        PadButton::Down => 0x20,
        PadButton::Left => 0x40,
        PadButton::Right => 0x80,
    }
}

pub fn button_mask(b: PadButton) -> (r: u8)
    ensures
        r == button_bit(b),
{
    match b {
        PadButton::A => 0x01,
        PadButton::B => 0x02,
        PadButton::Select => 0x04,
        PadButton::Start => 0x08,
        PadButton::Up => 0x10,
        PadButton::Down => 0x20,
        PadButton::Left => 0x40,
        PadButton::Right => 0x80,
    }
}

#[derive(Clone, Copy, Debug, Default)]
pub struct Port {
    /// Currently held buttons, one bit each (see `button_bit`).
    pub buttons: u8,
    /// Strobe input: while high the register keeps reloading.
    pub strobe: bool,
    /// The shift register; bit 0 is what the next read reports.
    pub shift: u8,
}

impl Port {
    pub fn new() -> (r: Port)
        ensures
            r.buttons == 0 && !r.strobe && r.shift == 0,
    {
        Port { buttons: 0, strobe: false, shift: 0 }
    }

    /// The bit a read reports now, without shifting.
    pub open spec fn output_bit(&self) -> u8 {
        if self.strobe {
            self.buttons & 1
        } else {
            self.shift & 1
        }
    }

    pub fn push_button(&mut self, b: PadButton)
        ensures
            final(self).buttons == old(self).buttons | button_bit(b),
            final(self).strobe == old(self).strobe,
            final(self).shift == old(self).shift,
    {
        self.buttons = self.buttons | button_mask(b);
    }

    pub fn release_button(&mut self, b: PadButton)
        ensures
            final(self).buttons == old(self).buttons & !button_bit(b),
            final(self).strobe == old(self).strobe,
            final(self).shift == old(self).shift,
    {
        self.buttons = self.buttons & !button_mask(b);
    }

    /// Powering on releases the strobe and empties the register; held buttons stay.
    pub fn power_cycle(&mut self)
        ensures
            final(self).buttons == old(self).buttons,
            !final(self).strobe,
            final(self).shift == 0,
    {
        self.strobe = false;
        self.shift = 0;
    }

    /// A write to 0x4016: bit 0 is the strobe; the buttons are latched into
    /// the shift register.
    pub fn write_register(&mut self, data: u8)
        ensures
            final(self).strobe == (data & 1 == 1),
            final(self).shift == old(self).buttons,
            final(self).buttons == old(self).buttons,
    {
        self.strobe = data & 1 == 1;
        self.shift = self.buttons;
    }

    /// The serial bit (in bit 0) that a read returns, without side effects.
    pub fn peek(&self) -> (r: u8)
        ensures
            r == self.output_bit(),
    {
        if self.strobe {
            self.buttons & 1
        } else {
            self.shift & 1
        }
    }

    /// Reads the serial bit; with the strobe low the register then shifts
    /// right, filling with ones.
    pub fn read(&mut self) -> (r: u8)
        ensures
            r == old(self).output_bit(),
            final(self).buttons == old(self).buttons,
            final(self).strobe == old(self).strobe,
            final(self).shift == if old(self).strobe {
                old(self).shift
            } else {
                (old(self).shift >> 1u8) | 0x80
            },
    {
        let r = self.peek();
        if !self.strobe {
            self.shift = (self.shift >> 1u8) | 0x80;
        }
        r
    }
}

} // verus!
