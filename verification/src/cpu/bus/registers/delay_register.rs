use vstd::prelude::*;

verus! {

#[derive(Copy, Clone, PartialEq, Eq, Structural)]
pub enum BusWidth {
    Bit8,
    Bit16,
}

#[derive(Copy, Clone, PartialEq, Eq, Structural)]
pub enum DmaTiming {
    Normal,
    UseBits,
}

#[derive(Copy, Clone, PartialEq, Eq, Structural)]
pub enum WideDma {
    Normal,
    Override,
}

/// A memory control delay/size register (EXP1, EXP2, EXP3, BIOS, SPU, CDROM).
pub struct DelayRegister {
    pub write_delay: u32,
    pub read_delay: u32,
    pub recovery_period: bool,
    pub hold_period: bool,
    pub floating_period: bool,
    pub prestrobe_period: bool,
    pub bus_width: BusWidth,
    pub auto_increment: bool,
    pub num_addr_bits: u32,
    pub unknown: u32,
    pub timing_override: u32,
    pub error_flag: bool,
    pub dma_timing: DmaTiming,
    pub wide_dma: WideDma,
    pub wait: bool,
    pub dma_timing_override: u32,
}

/// Bit `n` of `v`.
pub open spec fn bit(v: u32, n: u32) -> bool {
    (v >> n) & 1 == 1
}

pub open spec fn flag(b: bool) -> u32 {
    if b { 1 } else { 0 }
}

/// The register's fields laid out in their bit positions.
pub open spec fn pack(
    write_delay: u32,
    read_delay: u32,
    b8: bool,
    b9: bool,
    b10: bool,
    b11: bool,
    b12: bool,
    b13: bool,
    unknown: u32,
    num_addr_bits: u32,
    dma_timing_override: u32,
    b29: bool,
    b30: bool,
    b31: bool,
) -> u32 {
    write_delay | (read_delay << 4u32) | (flag(b8) << 8u32) | (flag(b9) << 9u32) | (flag(b10)
        << 10u32) | (flag(b11) << 11u32) | (flag(b12) << 12u32) | (flag(b13) << 13u32) | (unknown
        << 14u32) | (num_addr_bits << 16u32) | (dma_timing_override << 24u32) | (flag(b29)
        << 29u32) | (flag(b30) << 30u32) | (flag(b31) << 31u32)
}

impl DelayRegister {
    /// The register after the CPU writes `value`: each field takes its bits; writing bit 28
    /// acknowledges the error flag. Bits 21..23 are not stored.
    pub open spec fn written(&self, value: u32) -> DelayRegister {
        DelayRegister {
            write_delay: value & 0xf,
            read_delay: (value >> 4) & 0xf,
            recovery_period: bit(value, 8),
            hold_period: bit(value, 9),
            floating_period: bit(value, 10),
            prestrobe_period: bit(value, 11),
            bus_width: if bit(value, 12) { BusWidth::Bit16 } else { BusWidth::Bit8 },
            auto_increment: bit(value, 13),
            unknown: (value >> 14) & 0x3,
            num_addr_bits: (value >> 16) & 0x1f,
            dma_timing_override: (value >> 24) & 0xf,
            error_flag: if bit(value, 28) { false } else { self.error_flag },
            dma_timing: if bit(value, 29) { DmaTiming::UseBits } else { DmaTiming::Normal },
            wide_dma: if bit(value, 30) { WideDma::Override } else { WideDma::Normal },
            wait: value >> 31 == 1,
            timing_override: self.timing_override,
        }
    }

    /// The value the CPU reads back.
    pub open spec fn spec_read(&self) -> u32 {
        pack(
            self.write_delay,
            self.read_delay,
            self.recovery_period,
            self.hold_period,
            self.floating_period,
            self.prestrobe_period,
            self.bus_width == BusWidth::Bit16,
            self.auto_increment,
            self.unknown,
            self.num_addr_bits,
            self.dma_timing_override,
            self.dma_timing == DmaTiming::UseBits,
            self.wide_dma == WideDma::Override,
            self.wait,
        )
    }

    /// All fields zero: 8-bit bus, no delays, no error.
    pub fn new() -> (r: Self)
        ensures
            r.spec_read() == 0,
            !r.error_flag,
            r.timing_override == 0,
    {
        assert(pack(0, 0, false, false, false, false, false, false, 0, 0, 0, false, false, false)
            == 0) by (bit_vector);
        Self {
            write_delay: 0,
            read_delay: 0,
            recovery_period: false,
            hold_period: false,
            floating_period: false,
            prestrobe_period: false,
            bus_width: BusWidth::Bit8,
            auto_increment: false,
            unknown: 0,
            num_addr_bits: 0,
            timing_override: 0,
            error_flag: false,
            dma_timing_override: 0,
            dma_timing: DmaTiming::Normal,
            wide_dma: WideDma::Normal,
            wait: false,
        }
    }

    pub fn write(&mut self, value: u32)
        ensures
            *final(self) == old(self).written(value),
    {
        self.write_delay = value & 0xf;
        self.read_delay = (value >> 4) & 0xf;
        self.recovery_period = (value >> 8) & 1 == 1;
        self.hold_period = (value >> 9) & 1 == 1;
        self.floating_period = (value >> 10) & 1 == 1;
        self.prestrobe_period = (value >> 11) & 1 == 1;
        self.bus_width = if (value >> 12) & 1 == 1 { BusWidth::Bit16 } else { BusWidth::Bit8 };
        self.auto_increment = (value >> 13) & 1 == 1;
        self.unknown = (value >> 14) & 0x3;
        self.num_addr_bits = (value >> 16) & 0x1f;
        self.dma_timing_override = (value >> 24) & 0xf;
        if (value >> 28) & 1 == 1 {
            self.error_flag = false;
        }
        self.dma_timing = if (value >> 29) & 1 == 1 { DmaTiming::UseBits } else { DmaTiming::Normal };
        self.wide_dma = if (value >> 30) & 1 == 1 { WideDma::Override } else { WideDma::Normal };
        self.wait = (value >> 31) == 1;
    }

    pub fn read(&self) -> (r: u32)
        ensures
            r == self.spec_read(),
    {
        self.write_delay
            | self.read_delay << 4
            | (if self.recovery_period { 1u32 } else { 0 }) << 8
            | (if self.hold_period { 1u32 } else { 0 }) << 9
            | (if self.floating_period { 1u32 } else { 0 }) << 10
            | (if self.prestrobe_period { 1u32 } else { 0 }) << 11
            | (if self.bus_width == BusWidth::Bit16 { 1u32 } else { 0 }) << 12
            | (if self.auto_increment { 1u32 } else { 0 }) << 13
            | self.unknown << 14
            | self.num_addr_bits << 16
            | self.dma_timing_override << 24
            | (if self.dma_timing == DmaTiming::UseBits { 1u32 } else { 0 }) << 29
            | (if self.wide_dma == WideDma::Override { 1u32 } else { 0 }) << 30
            | (if self.wait { 1u32 } else { 0 }) << 31
    }
}

/// Packing the fields that a write of `value` stores gives back `value`, but for the bits
/// that are not stored.
proof fn lemma_pack_written(value: u32)
    by (bit_vector)
    ensures
        pack(
            value & 0xf,
            (value >> 4) & 0xf,
            bit(value, 8),
            bit(value, 9),
            bit(value, 10),
            bit(value, 11),
            bit(value, 12),
            bit(value, 13),
            (value >> 14) & 0x3,
            (value >> 16) & 0x1f,
            (value >> 24) & 0xf,
            bit(value, 29),
            bit(value, 30),
            value >> 31 == 1,
        ) == value & 0xef1f_ffff,
{
}

/// Reading a delay register gives back what was written to it, but for bits 21..23 and 28,
/// which it does not store.
pub proof fn lemma_read_after_write(r: DelayRegister, value: u32)
    ensures
        r.written(value).spec_read() == value & 0xef1f_ffff,
{
    lemma_pack_written(value);
}

} // verus!
