//! A pixel buffer handed back and forth between the emulation loop, which
//! fills it, and a consumer, which reads it; only one side holds it at a time.
use vstd::prelude::*;
use crate::cartridge::zeroed;
use crate::ppu::PixelFormat;

verus! {

pub struct Framebuffer {
    pub width: usize,
    pub height: usize,
    pub pixel_format: PixelFormat,
    /// The pixels while nobody holds the lease; `None` while leased.
    pub data: Option<Vec<u8>>,
}

/// The exclusive handle on a framebuffer's pixels, RGBA row-major.
pub struct FramebufferLease {
    pub data: Vec<u8>,
}

impl Framebuffer {
    pub open spec fn is_leased(&self) -> bool {
        self.data.is_none()
    }

    /// How one lease attempt on `self` leaves `after`: `granted` says
    /// whether a handle came back.
    pub open spec fn rent_step(&self, after: Framebuffer, granted: bool) -> bool {
        &&& granted == !self.is_leased()
        &&& after.is_leased()
        &&& after.width == self.width
        &&& after.height == self.height
        &&& after.pixel_format == self.pixel_format
    }

    /// An unleased buffer of `width × height` pixels of four bytes, all zero.
    pub fn new(width: usize, height: usize, pixel_format: PixelFormat) -> (r: Framebuffer)
        requires
            width * height * 4 <= usize::MAX,
        ensures
            !r.is_leased(),
            r.width == width,
            r.height == height,
            r.pixel_format == pixel_format,
            r.data.unwrap()@.len() == width * height * 4,
    {
        Framebuffer { width, height, pixel_format, data: Some(zeroed(width * height * 4)) }
    }

    /// Takes the lease; `None` when it is already held elsewhere, which is
    /// no error: the caller tries again later.
    pub fn rent_data(&mut self) -> (r: Option<FramebufferLease>)
        ensures
            old(self).rent_step(*final(self), r.is_some()),
            r matches Some(l) ==> old(self).data == Some(l.data),
    {
        match self.data.take() {
            Some(d) => Some(FramebufferLease { data: d }),
            None => None,
        }
    }

    /// Gives the lease back, making the pixels available to the other side.
    pub fn release(&mut self, lease: FramebufferLease)
        requires
            old(self).is_leased(),
        ensures
            final(self).data == Some(lease.data),
            final(self).width == old(self).width,
            final(self).height == old(self).height,
            final(self).pixel_format == old(self).pixel_format,
    {
        self.data = Some(lease.data);
    }
}

/// Two lease attempts with no release between them never both succeed.
pub proof fn lemma_lease_exclusive(
    fb0: Framebuffer,
    fb1: Framebuffer,
    fb2: Framebuffer,
    first: bool,
    second: bool,
)
    requires
        fb0.rent_step(fb1, first),
        fb1.rent_step(fb2, second),
    ensures
        !(first && second),
        fb2.is_leased(),
{
}

} // verus!
