use vstd::prelude::*;
use crate::bits::lemma_and_le;

verus! {

/// How a DMA channel moves its words.
#[derive(Copy, Clone, PartialEq, Eq, Structural)]
pub enum SyncMode {
    Burst,
    Slice,
    LinkedList,
}

/// The channel control register (D#_CHCR).
#[derive(Copy, Clone)]
pub struct DmaChannelControlRegister {
    pub bits: u32,
}

/// The sync mode that bits 9..10 select; the value 3 is reserved.
pub open spec fn spec_sync_mode(bits: u32) -> SyncMode {
    if (bits >> 9) & 3 == 0 {
        SyncMode::Burst
    } else if (bits >> 9) & 3 == 1 {
        SyncMode::Slice
    } else {
        SyncMode::LinkedList
    }
}

impl DmaChannelControlRegister {
    pub const TRANSFER_DIR: u32 = 1;
    /// Set: the address steps down by 4 after each word; clear: up by 4.
    pub const DECREMENT: u32 = 1 << 1;
    pub const MODE: u32 = 1 << 8;
    pub const START_TRANSFER: u32 = 1 << 24;
    pub const FORCE_TRANSFER: u32 = 1 << 28;
    pub const PAUSE_FORCED: u32 = 1 << 29;
    pub const BUS_SNOOPING: u32 = 1 << 30;

    pub fn from_bits_retain(bits: u32) -> (r: Self)
        ensures
            r.bits == bits,
    {
        DmaChannelControlRegister { bits }
    }

    pub fn bits(&self) -> (r: u32)
        ensures
            r == self.bits,
    {
        self.bits
    }

    /// Whether every bit of `flag` is set.
    pub fn contains(&self, flag: u32) -> (r: bool)
        ensures
            r == (self.bits & flag == flag),
    {
        self.bits & flag == flag
    }

    /// Sets the bits of `flag`.
    pub fn insert(&mut self, flag: u32)
        ensures
            final(self).bits == old(self).bits | flag,
    {
        self.bits = self.bits | flag;
    }

    /// Clears the bits of `flag`.
    pub fn remove(&mut self, flag: u32)
        ensures
            final(self).bits == old(self).bits & !flag,
    {
        self.bits = self.bits & !flag;
    }

    /// Whether the sync mode field holds one of the three defined modes.
    pub open spec fn has_valid_sync_mode(&self) -> bool {
        (self.bits >> 9) & 3 != 3
    }

    pub fn sync_mode(&self) -> (r: SyncMode)
        requires
            self.has_valid_sync_mode(),
        ensures
            r == spec_sync_mode(self.bits),
    {
        let m = (self.bits >> 9) & 0x3;
        if m == 0 {
            SyncMode::Burst
        } else if m == 1 {
            SyncMode::Slice
        } else {
            SyncMode::LinkedList
        }
    }

    /// Bits 16..18.
    pub fn chopping_dma_window_size(&self) -> (r: u32)
        ensures
            r == (self.bits >> 16) & 0x7,
            r <= 7,
    {
        proof {
            lemma_and_le(self.bits >> 16, 7);
        }
        (self.bits >> 16) & 0x7
    }

    /// Bits 20..22.
    pub fn chopping_cpu_window_size(&self) -> (r: u32)
        ensures
            r == (self.bits >> 20) & 0x7,
            r <= 7,
    {
        proof {
            lemma_and_le(self.bits >> 20, 7);
        }
        (self.bits >> 20) & 0x7
    }
}

} // verus!
