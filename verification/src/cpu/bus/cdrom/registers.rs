use vstd::prelude::*;

verus! {

/// The CD-ROM interrupt enable register (HINTMSK).
#[derive(Copy, Clone)]
pub struct HntmaskRegister {
    pub bits: u8,
}

impl HntmaskRegister {
    pub const ENBFEMPT: u8 = 1 << 3;
    pub const ENBFWRDY: u8 = 1 << 4;

    pub fn from_bits_retain(bits: u8) -> (r: Self)
        ensures
            r.bits == bits,
    {
        HntmaskRegister { bits }
    }

    pub fn bits(&self) -> (r: u8)
        ensures
            r == self.bits,
    {
        self.bits
    }

    /// The stored bits with bits 5..7 reading as set.
    pub fn read(&self) -> (r: u8)
        ensures
            r == self.bits | 0xe0,
    {
        self.bits | 0xe0
    }

    pub fn write(&mut self, value: u8)
        ensures
            final(self).bits == value,
    {
        *self = Self::from_bits_retain(value)
    }

    /// Bits 0..4: the enabled interrupt sources.
    pub fn enable_irq(&self) -> (r: u8)
        ensures
            r == self.bits & 0x1f,
    {
        self.bits & 0x1f
    }
}

} // verus!
