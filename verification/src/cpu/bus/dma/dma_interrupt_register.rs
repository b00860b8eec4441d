use vstd::prelude::*;

verus! {

/// The DMA interrupt register (DICR).
#[derive(Copy, Clone)]
pub struct DmaInterruptRegister {
    pub bits: u32,
}

/// The master flag that bit 31 reads as: a bus error, or the master enable together with a
/// channel whose flag and enable bits are both set.
pub open spec fn spec_master_flag(bits: u32) -> bool {
    bits & DmaInterruptRegister::BUS_ERROR == DmaInterruptRegister::BUS_ERROR || (bits
        & DmaInterruptRegister::MASTER_CHANNEL_INTERRUPT
        == DmaInterruptRegister::MASTER_CHANNEL_INTERRUPT && ((bits >> 24) & 0x7f) & ((bits >> 16)
        & 0x7f) != 0)
}

/// The register after channel `channel` completes: its flag bit is set if its enable bit is.
pub open spec fn spec_channel_irq(bits: u32, channel: usize) -> u32 {
    if (bits >> (16 + channel) as u32) & 1 == 1 {
        bits | (1u32 << (24 + channel) as u32)
    } else {
        bits
    }
}

impl DmaInterruptRegister {
    pub const BUS_ERROR: u32 = 1 << 15;
    pub const MASTER_CHANNEL_INTERRUPT: u32 = 1 << 23;

    pub fn from_bits_retain(bits: u32) -> (r: Self)
        ensures
            r.bits == bits,
    {
        DmaInterruptRegister { bits }
    }

    pub fn bits(&self) -> (r: u32)
        ensures
            r == self.bits,
    {
        self.bits
    }

    /// Whether every bit of `flag` is set.
    pub fn contains(&self, flag: u32) -> (r: bool)
        ensures
            r == (self.bits & flag == flag),
    {
        self.bits & flag == flag
    }

    /// Bits 16..22: the per-channel interrupt enables.
    pub fn interrupt_mask(&self) -> (r: u32)
        ensures
            r == (self.bits >> 16) & 0x7f,
    {
        (self.bits >> 16) & 0x7f
    }

    /// Bits 24..30: the per-channel interrupt flags.
    pub fn interrupt_flags(&self) -> (r: u32)
        ensures
            r == (self.bits >> 24) & 0x7f,
    {
        (self.bits >> 24) & 0x7f
    }

    pub fn master_interrupt_flag(&self) -> (r: bool)
        ensures
            r == spec_master_flag(self.bits),
    {
        self.contains(Self::BUS_ERROR) || (self.contains(Self::MASTER_CHANNEL_INTERRUPT) && ((
        self.interrupt_flags() & self.interrupt_mask()) != 0))
    }

    /// The stored bits with the master flag in bit 31.
    pub fn read(&self) -> (r: u32)
        ensures
            r == self.bits | ((if spec_master_flag(self.bits) { 1u32 } else { 0u32 }) << 31u32),
    {
        let flag: u32 = if self.master_interrupt_flag() { 1 } else { 0 };
        self.bits | flag << 31
    }

    pub fn set_channel_irq_if_enabled(&mut self, channel: usize)
        requires
            channel < 8,
        ensures
            final(self).bits == spec_channel_irq(old(self).bits, channel),
    {
        let value: u32 = self.bits;
        let is_enabled_shift = 16 + channel as u32;
        if value >> is_enabled_shift & 0x1 == 1 {
            let set_shift = 24 + channel as u32;
            let interrupt_bits = value | (1u32 << set_shift);
            *self = DmaInterruptRegister::from_bits_retain(interrupt_bits);
        }
    }
}

} // verus!
