//! Interrupt controller: a mask register and an active-sources word,
//! visible both on the bus and on the front panel.

use vstd::prelude::*;

verus! {

/// Interrupt controller state: which sources are unmasked and which are
/// currently raised.
pub struct Irqc {
    pub irq_mask: u16,
    pub irq_active: u16,
}

/// What a bus read of the controller returns: offset 2 is the mask, every
/// other offset the masked active word.
pub open spec fn irqc_read_v(mask: u16, active: u16, off: u32) -> u16 {
    if off == 2 {
        mask
    } else {
        mask & active
    }
}

/// What a bus write does: offset 1 clears active bits by mask, offset 2
/// sets the mask, other offsets are ignored.
pub open spec fn irqc_write_v(mask: u16, active: u16, off: u32, data: u16) -> (u16, u16) {
    if off == 1 {
        (mask, active & !data)
    } else if off == 2 {
        (data, active)
    } else {
        (mask, active)
    }
}

impl crate::bus::Device for Irqc {
    /// Device-capability read.
    fn read(&mut self, address: u32, _sel: u8) -> (r: u16)
        ensures
            *final(self) == *old(self),
            r == irqc_read_v(old(self).irq_mask, old(self).irq_active, address),
    {
        Irqc::read(self, address)
    }

    /// Device-capability write.
    fn write(&mut self, address: u32, _sel: u8, data: u16)
        ensures
            (final(self).irq_mask, final(self).irq_active) == irqc_write_v(
                old(self).irq_mask,
                old(self).irq_active,
                address,
                data,
            ),
    {
        Irqc::write(self, address, data)
    }
}

impl Irqc {
    /// A controller with no sources unmasked and none raised.
    pub fn new() -> (r: Irqc)
        ensures
            r.irq_mask == 0,
            r.irq_active == 0,
    {
        Irqc { irq_mask: 0, irq_active: 0 }
    }

    /// Bus-facing read.
    pub fn read(&self, off: u32) -> (r: u16)
        ensures
            r == irqc_read_v(self.irq_mask, self.irq_active, off),
    {
        if off == 2 {
            self.irq_mask
        } else {
            self.irq_mask & self.irq_active
        }
    }

    /// Bus-facing write.
    pub fn write(&mut self, off: u32, data: u16)
        ensures
            (final(self).irq_mask, final(self).irq_active) == irqc_write_v(
                old(self).irq_mask,
                old(self).irq_active,
                off,
                data,
            ),
    {
        if off == 1 {
            self.irq_active = self.irq_active & !data;
        } else if off == 2 {
            self.irq_mask = data;
        }
    }

    /// Raise interrupt sources from the front panel.
    pub fn trigger(&mut self, code: u16)
        ensures
            final(self).irq_active == old(self).irq_active | code,
            final(self).irq_mask == old(self).irq_mask,
    {
        self.irq_active = self.irq_active | code;
    }

    /// Whether any unmasked source is raised.
    pub fn active(&self) -> (r: bool)
        ensures
            r == (self.irq_active & self.irq_mask != 0),
    {
        (self.irq_active & self.irq_mask) != 0
    }
}

} // verus!
