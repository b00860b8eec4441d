use vstd::prelude::*;

verus! {

/// The COP0 Cause register (cop0r13).
#[derive(Copy, Clone)]
pub struct CauseRegister {
    pub bits: u32,
}

impl CauseRegister {
    /// Branch-taken flag (bit 30).
    pub const BT: u32 = 1 << 30;

    /// Branch-delay flag (bit 31).
    pub const BD: u32 = 1 << 31;

    pub fn from_bits_retain(bits: u32) -> (r: Self)
        ensures
            r.bits == bits,
    {
        CauseRegister { bits }
    }

    pub fn bits(&self) -> (r: u32)
        ensures
            r == self.bits,
    {
        self.bits
    }

    /// Sets the bits of `flag` when `value` holds, clears them otherwise.
    pub fn set(&mut self, flag: u32, value: bool)
        ensures
            final(self).bits == if value { old(self).bits | flag } else { old(self).bits & !flag },
    {
        if value {
            self.bits = self.bits | flag;
        } else {
            self.bits = self.bits & !flag;
        }
    }

    /// Clears the bits of `flag`.
    pub fn remove(&mut self, flag: u32)
        ensures
            final(self).bits == old(self).bits & !flag,
    {
        self.bits = self.bits & !flag;
    }

    /// Bits 2..6: the exception code.
    pub fn ex_code(&self) -> (r: u32)
        ensures
            r == (self.bits >> 2) & 0x1f,
    {
        (self.bits >> 2) & 0x1f
    }

    /// Bits 10..15: the pending hardware interrupt lines.
    pub fn ip(&self) -> (r: u32)
        ensures
            r == (self.bits >> 10) & 0x3f,
    {
        (self.bits >> 10) & 0x3f
    }

    /// Bit 30.
    pub fn ce(&self) -> (r: bool)
        ensures
            r == ((self.bits >> 30) & 1 == 1),
    {
        (self.bits >> 30) & 0x1 == 1
    }

    /// Ors the exception code, shifted into bits 2..6, into the register; bits already set
    /// there stay set.
    pub fn write_exception_code(&mut self, code: u32)
        ensures
            final(self).bits == old(self).bits | (code << 2),
    {
        let code = code << 2;
        let b = self.bits;
        assert((b & !code) | code == b | code) by (bit_vector);
        *self = Self::from_bits_retain((self.bits() & !code) | code)
    }

    /// A write from the CPU: only the two software interrupt bits (8 and 9) are writable, and
    /// a write only sets them.
    pub fn write(&mut self, value: u32)
        ensures
            final(self).bits == old(self).bits | (((value >> 8) & 0x3) << 8),
    {
        let writable = ((value >> 8) & 0x3) << 8;
        let b = self.bits;
        assert((b & !writable) | writable == b | writable) by (bit_vector);
        *self = CauseRegister::from_bits_retain((self.bits() & !writable) | writable)
    }
}

/// The COP0 Status register (cop0r12).
#[derive(Copy, Clone)]
pub struct StatusRegister {
    pub bits: u32,
}

impl StatusRegister {
    pub const IEC: u32 = 1 << 0;
    pub const KUC: u32 = 1 << 1;
    pub const IEP: u32 = 1 << 2;
    pub const KUP: u32 = 1 << 3;
    pub const IEO: u32 = 1 << 4;
    pub const KUO: u32 = 1 << 5;
    pub const ISOLATE_CACHE: u32 = 1 << 16;
    pub const SWC: u32 = 1 << 17;
    pub const PZ: u32 = 1 << 18;
    pub const CM: u32 = 1 << 19;
    pub const PE: u32 = 1 << 20;
    pub const BEV: u32 = 1 << 22;
    pub const COP0_ENABLE: u32 = 1 << 28;
    pub const GTE_ENABLE: u32 = 1 << 30;

    pub fn from_bits_retain(bits: u32) -> (r: Self)
        ensures
            r.bits == bits,
    {
        StatusRegister { bits }
    }

    pub fn bits(&self) -> (r: u32)
        ensures
            r == self.bits,
    {
        self.bits
    }

    /// Whether every bit of `flag` is set.
    pub fn contains(&self, flag: u32) -> (r: bool)
        ensures
            r == (self.bits & flag == flag),
    {
        self.bits & flag == flag
    }

    /// Bits 8..15: the interrupt mask.
    pub fn interrupt_mask(&self) -> (r: u32)
        ensures
            r == (self.bits >> 8) & 0xff,
    {
        (self.bits >> 8) & 0xff
    }

    /// RFE: pops the interrupt-enable/kernel-mode stack. The "previous" pair (bits 2..3)
    /// becomes the "current" pair (bits 0..1), the "old" pair (bits 4..5) becomes the
    /// "previous" pair; bits 4..5 and all higher bits stay as they are.
    pub fn return_from_exception(&mut self)
        ensures
            final(self).bits == (old(self).bits & !0xfu32) | ((old(self).bits >> 2) & 0x3) | (((old(self).bits >> 4) & 0x3) << 2),
    {
        let bits23 = self.bits23();

        let bits45 = (self.bits45()) << 2;

        let mut sr_bits = self.bits();

        sr_bits &= !0xf;

        sr_bits |= bits23;
        sr_bits |= bits45;

        *self = Self::from_bits_retain(sr_bits);
    }

    /// Bits 2..3.
    pub fn bits23(&self) -> (r: u32)
        ensures
            r == (self.bits >> 2) & 0x3,
    {
        (self.bits >> 2) & 0x3
    }

    /// Bits 4..5.
    pub fn bits45(&self) -> (r: u32)
        ensures
            r == (self.bits >> 4) & 0x3,
    {
        (self.bits >> 4) & 0x3
    }
}

/// The system control coprocessor.
pub struct COP0 {
    pub sr: StatusRegister,
    pub dcic: u32,
    pub bpc: u32,
    pub bda: u32,
    pub tar: u32,
    pub bdam: u32,
    pub bpcm: u32,
    pub cause: CauseRegister,
    pub epc: u32,
    pub bad_addr: u32,
}

/// The COP0 register numbers that `mfc0` can read.
pub open spec fn mfc0_readable(index: usize) -> bool {
    index == 0x6 || index == 0x7 || index == 0x8 || index == 0xc || index == 0xd || index == 0xe
        || index == 0xf
}

/// The COP0 register numbers that `mtc0` can write.
pub open spec fn mtc0_writable(index: usize) -> bool {
    index == 0x3 || index == 0x5 || index == 0x6 || index == 0x7 || index == 0x9 || index == 0xb
        || index == 0xc || index == 0xd
}

impl COP0 {
    /// The value `mfc0` returns for a readable register number.
    pub open spec fn spec_read(&self, index: usize) -> u32 {
        if index == 0x6 {
            self.tar
        } else if index == 0x7 {
            self.dcic
        } else if index == 0x8 {
            self.bad_addr
        } else if index == 0xc {
            self.sr.bits
        } else if index == 0xd {
            self.cause.bits
        } else if index == 0xe {
            self.epc
        } else {
            0x0000_0002
        }
    }

    /// The registers after `mtc0` writes `value` to register `index`.
    pub open spec fn written(self, index: usize, value: u32) -> COP0 {
        if index == 0x3 {
            COP0 { bpc: value, ..self }
        } else if index == 0x5 {
            COP0 { bda: value, ..self }
        } else if index == 0x6 {
            self
        } else if index == 0x7 {
            COP0 { dcic: value, ..self }
        } else if index == 0x9 {
            COP0 { bdam: value, ..self }
        } else if index == 0xb {
            COP0 { bpcm: value, ..self }
        } else if index == 0xc {
            COP0 { sr: StatusRegister { bits: value }, ..self }
        } else {
            COP0 { cause: CauseRegister { bits: self.cause.bits | (((value >> 8) & 0x3) << 8) }, ..self }
        }
    }

    /// The registers after `rfe`: the status register pops its mode stack.
    pub open spec fn returned_from_exception(self) -> COP0 {
        let b = self.sr.bits;
        COP0 { sr: StatusRegister { bits: (b & !0xfu32) | ((b >> 2) & 0x3) | (((b >> 4) & 0x3) << 2) }, ..self }
    }

    /// All registers zero.
    pub fn new() -> (r: Self)
        ensures
            r.sr.bits == 0,
            r.dcic == 0,
            r.bpc == 0,
            r.bda == 0,
            r.tar == 0,
            r.bdam == 0,
            r.bpcm == 0,
            r.cause.bits == 0,
            r.epc == 0,
            r.bad_addr == 0,
    {
        Self {
            sr: StatusRegister::from_bits_retain(0),
            dcic: 0,
            bpc: 0,
            bda: 0,
            tar: 0,
            bdam: 0,
            bpcm: 0,
            cause: CauseRegister::from_bits_retain(0),
            epc: 0,
            bad_addr: 0,
        }
    }

    /// Move from coprocessor 0: register 15 (PRID) reads as 2.
    pub fn mfc0(&self, index: usize) -> (r: u32)
        requires
            mfc0_readable(index),
        ensures
            r == self.spec_read(index),
    {
        match index {
            0x6 => self.tar,
            0x7 => self.dcic,
            0x8 => self.bad_addr,
            0xc => self.sr.bits(),
            0xd => self.cause.bits(),
            0xe => self.epc,
            _ => 0x0000_0002,
        }
    }

    /// Move to coprocessor 0: register 6 (TAR) is read only, the Cause register takes only
    /// its software interrupt bits; every other writable register takes the whole value.
    pub fn mtc0(&mut self, index: usize, value: u32)
        requires
            mtc0_writable(index),
        ensures
            *final(self) == old(self).written(index, value),
    {
        match index {
            0x3 => self.bpc = value,
            0x5 => self.bda = value,
            0x6 => (),
            0x7 => self.dcic = value,
            0x9 => self.bdam = value,
            0xb => self.bpcm = value,
            0xc => self.sr = StatusRegister::from_bits_retain(value),
            _ => self.cause.write(value),
        }
    }

    /// Return from exception: pops the status register's mode stack.
    pub fn rfe(&mut self)
        ensures
            *final(self) == old(self).returned_from_exception(),
    {
        self.sr.return_from_exception();
    }
}

} // verus!
