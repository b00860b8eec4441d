use vstd::prelude::*;

verus! {

/// The SPU status register (SPUSTAT).
#[derive(Copy, Clone)]
pub struct SpuStatRegister {
    pub bits: u16,
}

impl SpuStatRegister {
    pub const IRQ9_FLAG: u16 = 0x40;
    pub const DMA_REQUEST_BIT: u16 = 0x80;
    pub const DMA_WRITE_REQUEST: u16 = 0x100;
    pub const DMA_READ_REQUEST: u16 = 0x200;
    pub const DMA_TRANSFER_BUSY: u16 = 0x400;
    pub const CAPTURE_BUFFER_ID: u16 = 0x800;

    pub fn from_bits_retain(bits: u16) -> (r: Self)
        ensures
            r.bits == bits,
    {
        SpuStatRegister { bits }
    }

    pub fn bits(&self) -> (r: u16)
        ensures
            r == self.bits,
    {
        self.bits
    }

    /// Whether every bit of `flag` is set.
    pub fn contains(&self, flag: u16) -> (r: bool)
        ensures
            r == (self.bits & flag == flag),
    {
        self.bits & flag == flag
    }

    /// Sets the bits of `flag`.
    pub fn insert(&mut self, flag: u16)
        ensures
            final(self).bits == old(self).bits | flag,
    {
        self.bits = self.bits | flag;
    }

    /// Sets the bits of `flag` when `on`, clears them otherwise.
    pub fn set(&mut self, flag: u16, on: bool)
        ensures
            final(self).bits == (if on { old(self).bits | flag } else { old(self).bits & !flag }),
    {
        if on {
            self.bits = self.bits | flag;
        } else {
            self.bits = self.bits & !flag;
        }
    }

    /// Clears the bits of `flag`.
    pub fn remove(&mut self, flag: u16)
        ensures
            final(self).bits == old(self).bits & !flag,
    {
        self.bits = self.bits & !flag;
    }
}

} // verus!
