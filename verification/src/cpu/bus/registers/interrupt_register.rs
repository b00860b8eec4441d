use vstd::prelude::*;

verus! {

/// The interrupt status/mask register (I_STAT / I_MASK): one bit per interrupt line.
///
///  0 VBLANK, 1 GPU, 2 CDROM, 3 DMA, 4..6 timers, 7 controller/memory card, 8 SIO, 9 SPU,
/// 10 lightpen.
#[derive(Copy, Clone)]
pub struct InterruptRegister {
    pub bits: u32,
}

impl InterruptRegister {
    pub const VBLANK: u32 = 1 << 0;
    pub const GPU: u32 = 1 << 1;
    pub const CDROM: u32 = 1 << 2;
    pub const DMA: u32 = 1 << 3;
    pub const TMR0: u32 = 1 << 4;
    pub const TMR1: u32 = 1 << 5;
    pub const TMR2: u32 = 1 << 6;
    pub const PERIPHERAL: u32 = 1 << 7;
    pub const SIO: u32 = 1 << 8;
    pub const SPU: u32 = 1 << 9;
    pub const LIGHTPEN: u32 = 1 << 10;

    /// The bits that name an interrupt line.
    pub const ALL: u32 = 0x7ff;

    pub fn from_bits_retain(bits: u32) -> (r: Self)
        ensures
            r.bits == bits,
    {
        InterruptRegister { bits }
    }

    /// Keeps only the bits that name an interrupt line.
    pub fn from_bits_truncate(bits: u32) -> (r: Self)
        ensures
            r.bits == bits & 0x7ff,
    {
        InterruptRegister { bits: bits & Self::ALL }
    }

    pub fn bits(&self) -> (r: u32)
        ensures
            r == self.bits,
    {
        self.bits
    }

    /// Whether every bit of `flag` is set.
    pub fn contains(&self, flag: u32) -> (r: bool)
        ensures
            r == (self.bits & flag == flag),
    {
        self.bits & flag == flag
    }

    /// Sets the bits of `flag`.
    pub fn insert(&mut self, flag: u32)
        ensures
            final(self).bits == old(self).bits | flag,
    {
        self.bits = self.bits | flag;
    }
}

} // verus!
