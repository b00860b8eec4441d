use vstd::prelude::*;
use crate::bits::lemma_and_le;

verus! {

/// A timer's counter mode register.
#[derive(Copy, Clone)]
pub struct CounterModeRegister {
    pub bits: u16,
}

impl CounterModeRegister {
    pub const SYNC_ENABLE: u16 = 1;
    pub const RESET_COUNTER: u16 = 1 << 3;
    pub const COUNTER_IRQ_TARGET: u16 = 1 << 4;
    pub const COUNTER_IRQ_FFFF: u16 = 1 << 5;
    pub const IRQ_REPEAT_MODE: u16 = 1 << 6;
    pub const IRQ_PULSE_TOGGLE: u16 = 1 << 7;
    pub const INTERRUPT_REQUEST: u16 = 1 << 10;
    pub const REACHED_TARGET: u16 = 1 << 11;
    pub const REACHED_FFFF: u16 = 1 << 12;

    pub fn from_bits_retain(bits: u16) -> (r: Self)
        ensures
            r.bits == bits,
    {
        CounterModeRegister { bits }
    }

    pub fn bits(&self) -> (r: u16)
        ensures
            r == self.bits,
    {
        self.bits
    }

    /// Whether every bit of `flag` is set.
    pub open spec fn has(&self, flag: u16) -> bool {
        self.bits & flag == flag
    }

    pub fn contains(&self, flag: u16) -> (r: bool)
        ensures
            r == self.has(flag),
    {
        self.bits & flag == flag
    }

    /// Sets the bits of `flag`.
    pub fn insert(&mut self, flag: u16)
        ensures
            final(self).bits == old(self).bits | flag,
    {
        self.bits = self.bits | flag;
    }

    /// Bits 1..2: the synchronization mode.
    pub fn sync_mode(&self) -> (r: u32)
        ensures
            r == (self.bits >> 1) & 0x3,
            r <= 3,
    {
        proof {
            lemma_and_le((self.bits >> 1) as u32, 3);
        }
        ((self.bits >> 1) & 0x3) as u32
    }

    /// Bits 8..9: the clock source.
    pub fn clock_source(&self) -> (r: u32)
        ensures
            r == (self.bits >> 8) & 0x3,
            r <= 3,
    {
        proof {
            lemma_and_le((self.bits >> 8) as u32, 3);
        }
        ((self.bits >> 8) & 0x3) as u32
    }
}

} // verus!
