use vstd::prelude::*;
use crate::bits::lemma_and_le;

verus! {

/// How the CPU moves data into or out of sound RAM.
#[derive(Copy, Clone, PartialEq, Eq, Structural)]
pub enum SoundRamTransferMode {
    Stop,
    ManualWrite,
    DMAWrite,
    DMARead,
}

/// The SPU control register (SPUCNT).
#[derive(Copy, Clone)]
pub struct SpuControlRegister {
    pub bits: u16,
}

/// The transfer mode that bits 4..5 select.
pub open spec fn spec_transfer_mode(bits: u16) -> SoundRamTransferMode {
    let m = (bits >> 4) & 3;
    if m == 0 {
        SoundRamTransferMode::Stop
    } else if m == 1 {
        SoundRamTransferMode::ManualWrite
    } else if m == 2 {
        SoundRamTransferMode::DMAWrite
    } else {
        SoundRamTransferMode::DMARead
    }
}

impl SpuControlRegister {
    pub const CD_AUDIO_ENABLE: u16 = 0x1;
    pub const EXTERNAL_AUDIO_ENABLE: u16 = 0x2;
    pub const CD_AUDIO_REVERB: u16 = 0x4;
    pub const EXTERNAL_AUDIO_REVER: u16 = 0x8;
    pub const IRQ9_ENABLE: u16 = 0x40;
    pub const REVERB_MASTER_ENABLE: u16 = 0x80;
    pub const MUTE_SPU: u16 = 0x4000;
    pub const SPU_ENABLE: u16 = 0x8000;

    pub fn from_bits_retain(bits: u16) -> (r: Self)
        ensures
            r.bits == bits,
    {
        SpuControlRegister { bits }
    }

    pub fn bits(&self) -> (r: u16)
        ensures
            r == self.bits,
    {
        self.bits
    }

    /// Whether every bit of `flag` is set.
    pub fn contains(&self, flag: u16) -> (r: bool)
        ensures
            r == (self.bits & flag == flag),
    {
        self.bits & flag == flag
    }

    pub fn sound_ram_transfer_mode(&self) -> (r: SoundRamTransferMode)
        ensures
            r == spec_transfer_mode(self.bits),
    {
        let m = (self.bits >> 4) & 0x3;
        proof {
            lemma_and_le((self.bits >> 4) as u32, 3);
        }
        if m == 0 {
            SoundRamTransferMode::Stop
        } else if m == 1 {
            SoundRamTransferMode::ManualWrite
        } else if m == 2 {
            SoundRamTransferMode::DMAWrite
        } else {
            SoundRamTransferMode::DMARead
        }
    }
}

} // verus!
