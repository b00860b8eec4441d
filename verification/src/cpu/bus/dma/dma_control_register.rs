use vstd::prelude::*;

verus! {

/// The DMA control register (DPCR): a priority and an enable bit per channel.
#[derive(Copy, Clone)]
pub struct DmaControlRegister {
    pub bits: u32,
}

impl DmaControlRegister {
    pub const DMA0_ENABLE: u32 = 1 << 3;
    pub const DMA1_ENABLE: u32 = 1 << 7;
    pub const DMA2_ENABLE: u32 = 1 << 11;
    pub const DMA3_ENABLE: u32 = 1 << 15;
    pub const DMA4_ENABLE: u32 = 1 << 19;
    pub const DMA5_ENABLE: u32 = 1 << 23;
    pub const DMA6_ENABLE: u32 = 1 << 27;

    pub fn from_bits_retain(bits: u32) -> (r: Self)
        ensures
            r.bits == bits,
    {
        DmaControlRegister { bits }
    }

    pub fn bits(&self) -> (r: u32)
        ensures
            r == self.bits,
    {
        self.bits
    }

    /// Whether every bit of `flag` is set.
    pub fn contains(&self, flag: u32) -> (r: bool)
        ensures
            r == (self.bits & flag == flag),
    {
        self.bits & flag == flag
    }

    /// The priority of channel 0 (0 highest, 7 lowest), in bits 0..2.
    pub fn dma0_priority(&self) -> (r: u32)
        ensures
            r == self.bits & 0x7,
    {
        self.bits & 0x7
    }

    /// The priority of channel 1 (0 highest, 7 lowest), in bits 4..6.
    pub fn dma1_priority(&self) -> (r: u32)
        ensures
            r == (self.bits >> 4) & 0x7,
    {
        (self.bits >> 4) & 0x7
    }

    /// The priority of channel 2 (0 highest, 7 lowest), in bits 8..10.
    pub fn dma2_priority(&self) -> (r: u32)
        ensures
            r == (self.bits >> 8) & 0x7,
    {
        (self.bits >> 8) & 0x7
    }

    /// The priority of channel 3 (0 highest, 7 lowest), in bits 12..14.
    pub fn dma3_priority(&self) -> (r: u32)
        ensures
            r == (self.bits >> 12) & 0x7,
    {
        (self.bits >> 12) & 0x7
    }

    /// The priority of channel 4 (0 highest, 7 lowest), in bits 16..18.
    pub fn dma4_priority(&self) -> (r: u32)
        ensures
            r == (self.bits >> 16) & 0x7,
    {
        (self.bits >> 16) & 0x7
    }

    /// The priority of channel 5 (0 highest, 7 lowest), in bits 20..22.
    pub fn dma5_priority(&self) -> (r: u32)
        ensures
            r == (self.bits >> 20) & 0x7,
    {
        (self.bits >> 20) & 0x7
    }

    /// The priority of channel 6 (0 highest, 7 lowest), in bits 24..26.
    pub fn dma6_priority(&self) -> (r: u32)
        ensures
            r == (self.bits >> 24) & 0x7,
    {
        (self.bits >> 24) & 0x7
    }
}

} // verus!
