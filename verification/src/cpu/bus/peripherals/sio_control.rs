use vstd::prelude::*;
use crate::bits::lemma_and_le;

verus! {

/// The serial port control register (JOY_CTRL).
#[derive(Copy, Clone)]
pub struct SIOControl {
    pub bits: u16,
}

impl SIOControl {
    pub const TX_ENABLE: u16 = 0x1;
    pub const DTR_OUT: u16 = 0x2;
    pub const RX_ENABLE: u16 = 0x4;
    pub const TX_OUTPUT: u16 = 0x8;
    pub const ACK: u16 = 0x10;
    pub const RTS_OUTPUT: u16 = 0x20;
    pub const RESET: u16 = 0x40;
    pub const UNKNOWN: u16 = 0x80;
    pub const TX_INTERRUPT_ENABLE: u16 = 0x400;
    pub const RX_INTERRUPT_ENABLE: u16 = 0x800;
    pub const DSR_INTERRUPT_ENABLE: u16 = 0x1000;
    pub const SIO_PORT_SELECT: u16 = 0x2000;

    pub fn from_bits_retain(bits: u16) -> (r: Self)
        ensures
            r.bits == bits,
    {
        SIOControl { bits }
    }

    pub fn bits(&self) -> (r: u16)
        ensures
            r == self.bits,
    {
        self.bits
    }

    /// Whether every bit of `flag` is set.
    pub fn contains(&self, flag: u16) -> (r: bool)
        ensures
            r == (self.bits & flag == flag),
    {
        self.bits & flag == flag
    }

    /// The number of bytes after which the receive interrupt fires: 1, 2, 4 or 8, by bits 8..9.
    pub fn interrupt_mode_num_bytes(&self) -> (r: u16)
        ensures
            ((self.bits >> 8) & 3 == 0) ==> r == 1,
            ((self.bits >> 8) & 3 == 1) ==> r == 2,
            ((self.bits >> 8) & 3 == 2) ==> r == 4,
            ((self.bits >> 8) & 3 == 3) ==> r == 8,
    {
        let value = (self.bits >> 8) & 0x3;
        proof {
            lemma_and_le((self.bits >> 8) as u32, 3);
        }
        if value == 0 {
            1
        } else if value == 1 {
            2
        } else if value == 2 {
            4
        } else {
            8
        }
    }
}

} // verus!
