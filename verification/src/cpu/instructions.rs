use vstd::prelude::*;
use crate::bits::lemma_and_le;
use super::{CPU, CpuError, ExceptionType, RA_REGISTER, bus_after_cycles, can_run_cycles};
use super::bus::{Bus, translate};
use super::cop0::{COP0, StatusRegister, mfc0_readable, mtc0_writable};

verus! {

/// A decoded view of one 32-bit MIPS R3000A instruction word.
pub struct Instruction(pub u32);

impl Instruction {
    /// The low 16 bits, zero-extended.
    pub fn immediate16(&self) -> (r: u32)
        ensures
            r == self.0 & 0xffff,
    {
        self.0 & 0xffff
    }

    /// The low 16 bits, sign-extended to 32 bits.
    pub fn signed_immediate16(&self) -> (r: i32)
        ensures
            r == (if self.0 & 0x8000 == 0 { (self.0 & 0xffff) as int } else { (self.0 & 0xffff) as int - 0x10000 }),
            -0x8000 <= r < 0x8000,
    {
        let w = self.0;
        let low = w & 0xffff;
        assert(low < 0x10000) by (bit_vector)
            requires low == w & 0xffff;
        assert((low & 0x8000 == 0) == (w & 0x8000 == 0)) by (bit_vector)
            requires low == w & 0xffff;
        assert((low & 0x8000 == 0) == (low < 0x8000)) by (bit_vector)
            requires low < 0x10000;
        if low & 0x8000 == 0 {
            low as i32
        } else {
            low as i32 - 0x10000
        }
    }

    /// Bits 6..10: the shift amount of the immediate shifts.
    pub fn immediate5(&self) -> (r: u32)
        ensures
            r == (self.0 >> 6) & 0x1f,
            r < 32,
    {
        let w = self.0;
        let r = (w >> 6) & 0x1f;
        proof { lemma_and_le(w >> 6, 0x1f); }
        r
    }

    /// Bits 16..20: the target register.
    pub fn rt(&self) -> (r: usize)
        ensures
            r == (self.0 >> 16) & 0x1f,
            r < 32,
    {
        let w = self.0;
        let v = (w >> 16) & 0x1f;
        proof { lemma_and_le(w >> 16, 0x1f); }
        v as usize
    }

    /// Bits 21..25: the source register.
    pub fn rs(&self) -> (r: usize)
        ensures
            r == (self.0 >> 21) & 0x1f,
            r < 32,
    {
        let w = self.0;
        let v = (w >> 21) & 0x1f;
        proof { lemma_and_le(w >> 21, 0x1f); }
        v as usize
    }

    /// Bits 11..15: the destination register.
    pub fn rd(&self) -> (r: usize)
        ensures
            r == (self.0 >> 11) & 0x1f,
            r < 32,
    {
        let w = self.0;
        let v = (w >> 11) & 0x1f;
        proof { lemma_and_le(w >> 11, 0x1f); }
        v as usize
    }

    /// The low 26 bits: the jump target field.
    pub fn immediate26(&self) -> (r: u32)
        ensures
            r == self.0 & 0x3ffffff,
    {
        self.0 & 0x3ffffff
    }

    /// The low 25 bits plus the command flag: the GTE command field.
    pub fn cop2_command(&self) -> (r: u32)
        ensures
            r == self.0 & 0x3ff_ffff,
    {
        self.0 & 0x3ff_ffff
    }

    /// Bits 21..25: the coprocessor operation code.
    pub fn cop_code(&self) -> (r: u32)
        ensures
            r == (self.0 >> 21) & 0x1f,
    {
        (self.0 >> 21) & 0x1f
    }

    /// Bit 16: whether a BcondZ branch tests "greater or equal".
    pub fn bcond(&self) -> (r: u32)
        ensures
            r == (self.0 >> 16) & 1,
    {
        (self.0 >> 16) & 0b1
    }
}


/// Bits 21..25 of an instruction word.
pub open spec fn op_rs(w: u32) -> usize {
    ((w >> 21u32) & 0x1f) as usize
}

/// Bits 16..20 of an instruction word.
pub open spec fn op_rt(w: u32) -> usize {
    ((w >> 16u32) & 0x1f) as usize
}

/// Bits 11..15 of an instruction word.
pub open spec fn op_rd(w: u32) -> usize {
    ((w >> 11u32) & 0x1f) as usize
}

/// Bits 6..10 of an instruction word.
pub open spec fn op_shamt(w: u32) -> u32 {
    (w >> 6u32) & 0x1f
}

/// The low 16 bits of an instruction word, zero-extended.
pub open spec fn op_imm(w: u32) -> u32 {
    w & 0xffff
}

/// The low 16 bits of an instruction word, sign-extended.
pub open spec fn op_simm(w: u32) -> i32 {
    (if w & 0x8000 == 0 {
        (w & 0xffff) as int
    } else {
        (w & 0xffff) as int - 0x10000
    }) as i32
}

/// The target of a relative branch at `pc`.
pub open spec fn branch_target(pc: u32, w: u32) -> u32 {
    pc.wrapping_add_signed((op_simm(w) * 4) as i32)
}

/// The address a load or store computes: base register plus the signed offset.
pub open spec fn effective_address(c: CPU, w: u32) -> u32 {
    c.reg(op_rs(w)).wrapping_add(op_simm(w) as u32)
}

/// `|a| / |b|` with the sign of `a * b`: division rounded toward zero.
pub open spec fn trunc_div(a: int, b: int) -> int {
    let q = (if a >= 0 { a } else { -a }) / (if b >= 0 { b } else { -b });
    if (a >= 0) == (b >= 0) { q } else { -q }
}

/// The remainder of division rounded toward zero: it has the sign of `a`.
pub open spec fn trunc_rem(a: int, b: int) -> int {
    let r = (if a >= 0 { a } else { -a }) % (if b >= 0 { b } else { -b });
    if a >= 0 { r } else { -r }
}

/// The processor after the conditional branch `w`: taken when `taken`.
pub open spec fn branch_if(c: CPU, w: u32, taken: bool) -> CPU {
    if taken { c.branched(branch_target(c.pc, w)) } else { c }
}

/// A branch that also links: `$ra` takes the return address whether or not it is taken.
pub open spec fn branch_link_if(c: CPU, w: u32, taken: bool) -> CPU {
    branch_if(c.with_result(RA_REGISTER, c.next_pc), w, taken)
}

/// The effect of a multiplication or division: one extra cycle, then HI and LO.
pub open spec fn with_hi_lo(c: CPU, hi: u32, lo: u32) -> CPU {
    CPU { bus: bus_after_cycles(c.bus, 1), hi, lo, ..c }
}

/// (HI, LO) after DIV of `n` by `d`.
pub open spec fn signed_division(n: i32, d: i32) -> (u32, u32) {
    if n == i32::MIN && d == -1 {
        (0, n as u32)
    } else if d != 0 {
        (trunc_rem(n as int, d as int) as u32, trunc_div(n as int, d as int) as u32)
    } else {
        (n as u32, if n >= 0 { 0xffff_ffffu32 } else { 1u32 })
    }
}

fn divide(dividend: i32, divisor: i32) -> (r: (u32, u32))
    ensures
        r == signed_division(dividend, divisor),
{
    if dividend == i32::MIN && divisor == -1 {
        (0, dividend as u32)
    } else if divisor != 0 {
        let n = dividend as i64;
        let d = divisor as i64;
        let an: u64 = if n >= 0 { n as u64 } else { (-n) as u64 };
        let ad: u64 = if d >= 0 { d as u64 } else { (-d) as u64 };
        let q = an / ad;
        let m = an % ad;
        assert(q <= an) by (nonlinear_arith)
            requires ad >= 1, q == an / ad;
        let quotient: i64 = if (n >= 0) == (d >= 0) { q as i64 } else { -(q as i64) };
        let remainder: i64 = if n >= 0 { m as i64 } else { -(m as i64) };
        (remainder as u32, quotient as u32)
    } else {
        (dividend as u32, if dividend >= 0 { 0xffff_ffff } else { 1 })
    }
}

impl CPU {
    fn branch_to(&mut self, instruction: &Instruction)
        ensures
            *final(self) == old(self).branched(branch_target(old(self).pc, instruction.0)),
    {
        self.next_pc = self.pc.wrapping_add_signed(instruction.signed_immediate16() * 4);
        self.branch_taken = true;
    }

    pub fn bltz(&mut self, instruction: Instruction) -> (r: usize)
        requires
            old(self).wf(),
        ensures
            final(self).wf(),
            effect_bltz(*old(self), *final(self), instruction.0, Ok::<usize, CpuError>(r)),
    {
        if (self.r.0[instruction.rs()] as i32) < 0 {
            self.branch_to(&instruction);
        }
        2
    }

    pub fn bgez(&mut self, instruction: Instruction) -> (r: usize)
        requires
            old(self).wf(),
        ensures
            final(self).wf(),
            effect_bgez(*old(self), *final(self), instruction.0, Ok::<usize, CpuError>(r)),
    {
        if (self.r.0[instruction.rs()] as i32) >= 0 {
            self.branch_to(&instruction);
        }
        2
    }

    pub fn bltzal(&mut self, instruction: Instruction) -> (r: usize)
        requires
            old(self).wf(),
        ensures
            final(self).wf(),
            effect_bltzal(*old(self), *final(self), instruction.0, Ok::<usize, CpuError>(r)),
    {
        let val = self.r.0[instruction.rs()];
        self.set_result(RA_REGISTER, self.next_pc);
        if (val as i32) < 0 {
            self.branch_to(&instruction);
        }
        2
    }

    pub fn bgezal(&mut self, instruction: Instruction) -> (r: usize)
        requires
            old(self).wf(),
        ensures
            final(self).wf(),
            effect_bgezal(*old(self), *final(self), instruction.0, Ok::<usize, CpuError>(r)),
    {
        let val = self.r.0[instruction.rs()];
        self.set_result(RA_REGISTER, self.next_pc);
        if (val as i32) >= 0 {
            self.branch_to(&instruction);
        }
        2
    }

    /// The REGIMM group: bit 16 selects "greater or equal", bits 17..20 = 8 select linking.
    pub fn bcondz(&mut self, instruction: Instruction) -> (r: usize)
        requires
            old(self).wf(),
        ensures
            final(self).wf(),
            effect_bcondz(*old(self), *final(self), instruction.0, Ok::<usize, CpuError>(r)),
    {
        let bits = instruction.rt();
        if bits & 0x1e == 0x10 {
            if bits & 1 == 1 {
                self.bgezal(instruction)
            } else {
                self.bltzal(instruction)
            }
        } else {
            if bits & 1 == 1 {
                self.bgez(instruction)
            } else {
                self.bltz(instruction)
            }
        }
    }

    pub fn j(&mut self, instruction: Instruction) -> (r: usize)
        requires
            old(self).wf(),
        ensures
            final(self).wf(),
            effect_j(*old(self), *final(self), instruction.0, Ok::<usize, CpuError>(r)),
    {
        self.next_pc = (self.pc & 0xf000_0000) | instruction.immediate26() << 2;
        self.branch_taken = true;
        2
    }

    pub fn jal(&mut self, instruction: Instruction) -> (r: usize)
        requires
            old(self).wf(),
        ensures
            final(self).wf(),
            effect_jal(*old(self), *final(self), instruction.0, Ok::<usize, CpuError>(r)),
    {
        self.set_result(RA_REGISTER, self.next_pc);
        self.next_pc = (self.pc & 0xf0000000) | instruction.immediate26() << 2;
        self.branch_taken = true;
        2
    }

    pub fn beq(&mut self, instruction: Instruction) -> (r: usize)
        requires
            old(self).wf(),
        ensures
            final(self).wf(),
            effect_beq(*old(self), *final(self), instruction.0, Ok::<usize, CpuError>(r)),
    {
        if self.r.0[instruction.rs()] == self.r.0[instruction.rt()] {
            self.branch_to(&instruction);
        }
        2
    }

    pub fn bne(&mut self, instruction: Instruction) -> (r: usize)
        requires
            old(self).wf(),
        ensures
            final(self).wf(),
            effect_bne(*old(self), *final(self), instruction.0, Ok::<usize, CpuError>(r)),
    {
        if self.r.0[instruction.rs()] != self.r.0[instruction.rt()] {
            self.branch_to(&instruction);
        }
        2
    }

    pub fn blez(&mut self, instruction: Instruction) -> (r: usize)
        requires
            old(self).wf(),
        ensures
            final(self).wf(),
            effect_blez(*old(self), *final(self), instruction.0, Ok::<usize, CpuError>(r)),
    {
        if self.r.0[instruction.rs()] as i32 <= 0 {
            self.branch_to(&instruction);
        }
        2
    }

    pub fn bgtz(&mut self, instruction: Instruction) -> (r: usize)
        requires
            old(self).wf(),
        ensures
            final(self).wf(),
            effect_bgtz(*old(self), *final(self), instruction.0, Ok::<usize, CpuError>(r)),
    {
        if (self.r.0[instruction.rs()] as i32) > 0 {
            self.branch_to(&instruction);
        }
        2
    }

    /// Add immediate, trapping on signed overflow (the target register is then unchanged).
    pub fn addi(&mut self, instruction: Instruction) -> (r: usize)
        requires
            old(self).wf(),
        ensures
            final(self).wf(),
            effect_addi(*old(self), *final(self), instruction.0, Ok::<usize, CpuError>(r)),
    {
        match (self.r.0[instruction.rs()] as i32).checked_add(instruction.signed_immediate16()) {
            Some(result) => {
                self.set_result(instruction.rt(), result as u32);
            },
            None => {
                self.enter_exception(ExceptionType::Overflow);
                self.ignored_load_delay = Some(instruction.rt());
            },
        }
        2
    }

    pub fn addiu(&mut self, instruction: Instruction) -> (r: usize)
        requires
            old(self).wf(),
        ensures
            final(self).wf(),
            effect_addiu(*old(self), *final(self), instruction.0, Ok::<usize, CpuError>(r)),
    {
        let value = self.r.0[instruction.rs()].wrapping_add(instruction.signed_immediate16() as u32);
        self.set_result(instruction.rt(), value);
        2
    }

    pub fn slti(&mut self, instruction: Instruction) -> (r: usize)
        requires
            old(self).wf(),
        ensures
            final(self).wf(),
            effect_slti(*old(self), *final(self), instruction.0, Ok::<usize, CpuError>(r)),
    {
        let value: u32 = if (self.r.0[instruction.rs()] as i32) < instruction.signed_immediate16() { 1 } else { 0 };
        self.set_result(instruction.rt(), value);
        2
    }

    pub fn sltiu(&mut self, instruction: Instruction) -> (r: usize)
        requires
            old(self).wf(),
        ensures
            final(self).wf(),
            effect_sltiu(*old(self), *final(self), instruction.0, Ok::<usize, CpuError>(r)),
    {
        let extended_immediate = instruction.signed_immediate16() as u32;
        let value: u32 = if self.r.0[instruction.rs()] < extended_immediate { 1 } else { 0 };
        self.set_result(instruction.rt(), value);
        2
    }

    pub fn andi(&mut self, instruction: Instruction) -> (r: usize)
        requires
            old(self).wf(),
        ensures
            final(self).wf(),
            effect_andi(*old(self), *final(self), instruction.0, Ok::<usize, CpuError>(r)),
    {
        let value = self.r.0[instruction.rs()] & instruction.immediate16();
        self.set_result(instruction.rt(), value);
        2
    }

    pub fn ori(&mut self, instruction: Instruction) -> (r: usize)
        requires
            old(self).wf(),
        ensures
            final(self).wf(),
            effect_ori(*old(self), *final(self), instruction.0, Ok::<usize, CpuError>(r)),
    {
        let value = self.r.0[instruction.rs()] | instruction.immediate16();
        self.set_result(instruction.rt(), value);
        2
    }

    pub fn xori(&mut self, instruction: Instruction) -> (r: usize)
        requires
            old(self).wf(),
        ensures
            final(self).wf(),
            effect_xori(*old(self), *final(self), instruction.0, Ok::<usize, CpuError>(r)),
    {
        let value = self.r.0[instruction.rs()] ^ instruction.immediate16();
        self.set_result(instruction.rt(), value);
        2
    }

    pub fn lui(&mut self, instruction: Instruction) -> (r: usize)
        requires
            old(self).wf(),
        ensures
            final(self).wf(),
            effect_lui(*old(self), *final(self), instruction.0, Ok::<usize, CpuError>(r)),
    {
        let value = instruction.immediate16() << 16;
        self.set_result(instruction.rt(), value);
        2
    }
}


impl CPU {
    pub fn sll(&mut self, instruction: Instruction) -> (r: usize)
        requires
            old(self).wf(),
        ensures
            final(self).wf(),
            effect_sll(*old(self), *final(self), instruction.0, Ok::<usize, CpuError>(r)),
    {
        let value = self.r.0[instruction.rt()] << instruction.immediate5();
        self.set_result(instruction.rd(), value);
        2
    }

    pub fn srl(&mut self, instruction: Instruction) -> (r: usize)
        requires
            old(self).wf(),
        ensures
            final(self).wf(),
            effect_srl(*old(self), *final(self), instruction.0, Ok::<usize, CpuError>(r)),
    {
        let value = self.r.0[instruction.rt()] >> instruction.immediate5();
        self.set_result(instruction.rd(), value);
        2
    }

    /// Shift right arithmetic: the sign bit is copied in.
    pub fn sra(&mut self, instruction: Instruction) -> (r: usize)
        requires
            old(self).wf(),
        ensures
            final(self).wf(),
            effect_sra(*old(self), *final(self), instruction.0, Ok::<usize, CpuError>(r)),
    {
        let shifted_val = self.r.0[instruction.rt()] as i32;
        let value = shifted_val >> instruction.immediate5();
        self.set_result(instruction.rd(), value as u32);
        2
    }

    pub fn sllv(&mut self, instruction: Instruction) -> (r: usize)
        requires
            old(self).wf(),
        ensures
            final(self).wf(),
            effect_sllv(*old(self), *final(self), instruction.0, Ok::<usize, CpuError>(r)),
    {
        let source = self.r.0[instruction.rs()];
        let shift = source & 0x1f;
        proof { lemma_and_le(source, 0x1f); }
        let value = self.r.0[instruction.rt()] << shift;
        self.set_result(instruction.rd(), value);
        2
    }

    pub fn srlv(&mut self, instruction: Instruction) -> (r: usize)
        requires
            old(self).wf(),
        ensures
            final(self).wf(),
            effect_srlv(*old(self), *final(self), instruction.0, Ok::<usize, CpuError>(r)),
    {
        let source = self.r.0[instruction.rs()];
        let shift = source & 0x1f;
        proof { lemma_and_le(source, 0x1f); }
        let value = self.r.0[instruction.rt()] >> shift;
        self.set_result(instruction.rd(), value);
        2
    }

    pub fn srav(&mut self, instruction: Instruction) -> (r: usize)
        requires
            old(self).wf(),
        ensures
            final(self).wf(),
            effect_srav(*old(self), *final(self), instruction.0, Ok::<usize, CpuError>(r)),
    {
        let shifted_val = self.r.0[instruction.rt()] as i32;
        let source = self.r.0[instruction.rs()];
        let shift = source & 0x1f;
        proof { lemma_and_le(source, 0x1f); }
        let value = shifted_val >> shift;
        self.set_result(instruction.rd(), value as u32);
        2
    }

    pub fn jr(&mut self, instruction: Instruction) -> (r: usize)
        requires
            old(self).wf(),
        ensures
            final(self).wf(),
            effect_jr(*old(self), *final(self), instruction.0, Ok::<usize, CpuError>(r)),
    {
        self.next_pc = self.r.0[instruction.rs()];
        self.branch_taken = true;
        2
    }

    pub fn jalr(&mut self, instruction: Instruction) -> (r: usize)
        requires
            old(self).wf(),
        ensures
            final(self).wf(),
            effect_jalr(*old(self), *final(self), instruction.0, Ok::<usize, CpuError>(r)),
    {
        let return_val = self.next_pc;
        self.next_pc = self.r.0[instruction.rs()];
        self.set_result(instruction.rd(), return_val);
        self.branch_taken = true;
        2
    }

    pub fn syscall(&mut self, instruction: Instruction) -> (r: usize)
        requires
            old(self).wf(),
        ensures
            final(self).wf(),
            effect_syscall(*old(self), *final(self), instruction.0, Ok::<usize, CpuError>(r)),
    {
        self.enter_exception(ExceptionType::Syscall);
        2
    }

    pub fn break_(&mut self, instruction: Instruction) -> (r: usize)
        requires
            old(self).wf(),
        ensures
            final(self).wf(),
            effect_break_(*old(self), *final(self), instruction.0, Ok::<usize, CpuError>(r)),
    {
        self.enter_exception(ExceptionType::Break);
        2
    }

    pub fn mfhi(&mut self, instruction: Instruction) -> (r: usize)
        requires
            old(self).wf(),
        ensures
            final(self).wf(),
            effect_mfhi(*old(self), *final(self), instruction.0, Ok::<usize, CpuError>(r)),
    {
        self.set_result(instruction.rd(), self.hi);
        2
    }

    pub fn mthi(&mut self, instruction: Instruction) -> (r: usize)
        requires
            old(self).wf(),
        ensures
            final(self).wf(),
            effect_mthi(*old(self), *final(self), instruction.0, Ok::<usize, CpuError>(r)),
    {
        self.hi = self.r.0[instruction.rs()];
        2
    }

    pub fn mflo(&mut self, instruction: Instruction) -> (r: usize)
        requires
            old(self).wf(),
        ensures
            final(self).wf(),
            effect_mflo(*old(self), *final(self), instruction.0, Ok::<usize, CpuError>(r)),
    {
        self.set_result(instruction.rd(), self.lo);
        2
    }

    pub fn mtlo(&mut self, instruction: Instruction) -> (r: usize)
        requires
            old(self).wf(),
        ensures
            final(self).wf(),
            effect_mtlo(*old(self), *final(self), instruction.0, Ok::<usize, CpuError>(r)),
    {
        self.lo = self.r.0[instruction.rs()];
        2
    }

    /// Signed 64-bit product into HI:LO; it costs one extra cycle.
    pub fn mult(&mut self, instruction: Instruction) -> (r: usize)
        requires
            old(self).wf(),
            can_run_cycles(old(self).bus, 1),
        ensures
            final(self).wf(),
            effect_mult(*old(self), *final(self), instruction.0, Ok::<usize, CpuError>(r)),
    {
        self.tick(1);
        let a = self.r.0[instruction.rs()] as i32 as i64;
        let b = self.r.0[instruction.rt()] as i32 as i64;
        assert(a * b <= 0x4000_0000_0000_0000) by (nonlinear_arith)
            requires -0x8000_0000 <= a < 0x8000_0000, -0x8000_0000 <= b < 0x8000_0000;
        assert(-0x4000_0000_0000_0000 <= a * b) by (nonlinear_arith)
            requires -0x8000_0000 <= a < 0x8000_0000, -0x8000_0000 <= b < 0x8000_0000;
        let result = a * b;
        self.lo = result as u32;
        self.hi = (result >> 32) as u32;
        2
    }

    /// Unsigned 64-bit product into HI:LO; it costs one extra cycle.
    pub fn multu(&mut self, instruction: Instruction) -> (r: usize)
        requires
            old(self).wf(),
            can_run_cycles(old(self).bus, 1),
        ensures
            final(self).wf(),
            effect_multu(*old(self), *final(self), instruction.0, Ok::<usize, CpuError>(r)),
    {
        self.tick(1);
        let a = self.r.0[instruction.rs()] as u64;
        let b = self.r.0[instruction.rt()] as u64;
        assert(a * b <= 0xffff_fffe_0000_0001) by (nonlinear_arith)
            requires a <= 0xffff_ffff, b <= 0xffff_ffff;
        let result = a * b;
        self.lo = result as u32;
        self.hi = (result >> 32) as u32;
        2
    }

    /// Signed division into LO (quotient) and HI (remainder), rounded toward zero. Dividing
    /// by zero gives -1 or 1 and the dividend; the one overflowing case gives the dividend
    /// and 0. It costs one extra cycle.
    pub fn div(&mut self, instruction: Instruction) -> (r: usize)
        requires
            old(self).wf(),
            can_run_cycles(old(self).bus, 1),
        ensures
            final(self).wf(),
            effect_div(*old(self), *final(self), instruction.0, Ok::<usize, CpuError>(r)),
    {
        self.tick(1);
        let (hi, lo) = divide(self.r.0[instruction.rs()] as i32, self.r.0[instruction.rt()] as i32);
        self.lo = lo;
        self.hi = hi;
        2
    }

    /// Unsigned division into LO and HI; dividing by zero gives all ones and the dividend.
    /// It costs one extra cycle.
    pub fn divu(&mut self, instruction: Instruction) -> (r: usize)
        requires
            old(self).wf(),
            can_run_cycles(old(self).bus, 1),
        ensures
            final(self).wf(),
            effect_divu(*old(self), *final(self), instruction.0, Ok::<usize, CpuError>(r)),
    {
        self.tick(1);
        let dividend = self.r.0[instruction.rs()];
        let divisor = self.r.0[instruction.rt()];
        if divisor != 0 {
            self.lo = dividend / divisor;
            self.hi = dividend % divisor;
        } else {
            self.lo = 0xffff_ffff;
            self.hi = dividend;
        }
        2
    }

    /// Add, trapping on signed overflow.
    pub fn add(&mut self, instruction: Instruction) -> (r: usize)
        requires
            old(self).wf(),
        ensures
            final(self).wf(),
            effect_add(*old(self), *final(self), instruction.0, Ok::<usize, CpuError>(r)),
    {
        match (self.r.0[instruction.rs()] as i32).checked_add(self.r.0[instruction.rt()] as i32) {
            Some(result) => self.set_result(instruction.rd(), result as u32),
            None => self.enter_exception(ExceptionType::Overflow),
        }
        2
    }

    pub fn addu(&mut self, instruction: Instruction) -> (r: usize)
        requires
            old(self).wf(),
        ensures
            final(self).wf(),
            effect_addu(*old(self), *final(self), instruction.0, Ok::<usize, CpuError>(r)),
    {
        let value = self.r.0[instruction.rs()].wrapping_add(self.r.0[instruction.rt()]);
        self.set_result(instruction.rd(), value);
        2
    }

    /// Subtract, trapping on signed overflow.
    pub fn sub(&mut self, instruction: Instruction) -> (r: usize)
        requires
            old(self).wf(),
        ensures
            final(self).wf(),
            effect_sub(*old(self), *final(self), instruction.0, Ok::<usize, CpuError>(r)),
    {
        match (self.r.0[instruction.rs()] as i32).checked_sub(self.r.0[instruction.rt()] as i32) {
            Some(result) => self.set_result(instruction.rd(), result as u32),
            None => self.enter_exception(ExceptionType::Overflow),
        }
        2
    }

    pub fn subu(&mut self, instruction: Instruction) -> (r: usize)
        requires
            old(self).wf(),
        ensures
            final(self).wf(),
            effect_subu(*old(self), *final(self), instruction.0, Ok::<usize, CpuError>(r)),
    {
        let value = self.r.0[instruction.rs()].wrapping_sub(self.r.0[instruction.rt()]);
        self.set_result(instruction.rd(), value);
        2
    }

    pub fn and(&mut self, instruction: Instruction) -> (r: usize)
        requires
            old(self).wf(),
        ensures
            final(self).wf(),
            effect_and(*old(self), *final(self), instruction.0, Ok::<usize, CpuError>(r)),
    {
        let value = self.r.0[instruction.rs()] & self.r.0[instruction.rt()];
        self.set_result(instruction.rd(), value);
        2
    }

    pub fn or(&mut self, instruction: Instruction) -> (r: usize)
        requires
            old(self).wf(),
        ensures
            final(self).wf(),
            effect_or(*old(self), *final(self), instruction.0, Ok::<usize, CpuError>(r)),
    {
        let value = self.r.0[instruction.rs()] | self.r.0[instruction.rt()];
        self.set_result(instruction.rd(), value);
        2
    }

    pub fn xor(&mut self, instruction: Instruction) -> (r: usize)
        requires
            old(self).wf(),
        ensures
            final(self).wf(),
            effect_xor(*old(self), *final(self), instruction.0, Ok::<usize, CpuError>(r)),
    {
        let value = self.r.0[instruction.rs()] ^ self.r.0[instruction.rt()];
        self.set_result(instruction.rd(), value);
        2
    }

    pub fn nor(&mut self, instruction: Instruction) -> (r: usize)
        requires
            old(self).wf(),
        ensures
            final(self).wf(),
            effect_nor(*old(self), *final(self), instruction.0, Ok::<usize, CpuError>(r)),
    {
        let value = !(self.r.0[instruction.rs()] | self.r.0[instruction.rt()]);
        self.set_result(instruction.rd(), value);
        2
    }

    pub fn slt(&mut self, instruction: Instruction) -> (r: usize)
        requires
            old(self).wf(),
        ensures
            final(self).wf(),
            effect_slt(*old(self), *final(self), instruction.0, Ok::<usize, CpuError>(r)),
    {
        let value: u32 = if (self.r.0[instruction.rs()] as i32) < (self.r.0[instruction.rt()] as i32) { 1 } else { 0 };
        self.set_result(instruction.rd(), value);
        2
    }

    pub fn sltu(&mut self, instruction: Instruction) -> (r: usize)
        requires
            old(self).wf(),
        ensures
            final(self).wf(),
            effect_sltu(*old(self), *final(self), instruction.0, Ok::<usize, CpuError>(r)),
    {
        let value: u32 = if self.r.0[instruction.rs()] < self.r.0[instruction.rt()] { 1 } else { 0 };
        self.set_result(instruction.rd(), value);
        2
    }
}


/// A byte sign-extended to 32 bits.
pub open spec fn sext8(v: u32) -> u32 {
    (v as i8) as u32
}

/// A halfword sign-extended to 32 bits.
pub open spec fn sext16(v: u32) -> u32 {
    (v as i16) as u32
}

/// What register `i` holds for a merging load: a pending load of `i` counts as done.
pub open spec fn merge_base(c: CPU, i: usize) -> u32 {
    match c.delayed_load {
        Some((pending, v)) => if pending == i { v } else { c.reg(i) },
        None => c.reg(i),
    }
}

/// LWL: the aligned word's low bytes go into the high end of `cur`.
pub open spec fn lwl_merge(cur: u32, word: u32, a: u32) -> u32 {
    if a & 3 == 0 {
        (cur & 0xffffff) | (word << 24u32)
    } else if a & 3 == 1 {
        (cur & 0xffff) | (word << 16u32)
    } else if a & 3 == 2 {
        (cur & 0xff) | (word << 8u32)
    } else {
        word
    }
}

/// LWR: the aligned word's high bytes go into the low end of `cur`.
pub open spec fn lwr_merge(cur: u32, word: u32, a: u32) -> u32 {
    if a & 3 == 0 {
        word
    } else if a & 3 == 1 {
        (cur & 0xff000000) | (word >> 8u32)
    } else if a & 3 == 2 {
        (cur & 0xffff0000) | (word >> 16u32)
    } else {
        (cur & 0xffffff00) | (word >> 24u32)
    }
}

/// SWL: the register's high bytes replace the low end of the memory word.
pub open spec fn swl_merge(mem: u32, value: u32, a: u32) -> u32 {
    if a & 3 == 0 {
        (mem & 0xffffff00) | (value >> 24u32)
    } else if a & 3 == 1 {
        (mem & 0xffff0000) | (value >> 16u32)
    } else if a & 3 == 2 {
        (mem & 0xff000000) | (value >> 8u32)
    } else {
        value
    }
}

/// SWR: the register's low bytes replace the high end of the memory word.
pub open spec fn swr_merge(mem: u32, value: u32, a: u32) -> u32 {
    if a & 3 == 0 {
        value
    } else if a & 3 == 1 {
        (mem & 0xff) | (value << 8u32)
    } else if a & 3 == 2 {
        (mem & 0xffff) | (value << 16u32)
    } else {
        (mem & 0xffffff) | (value << 24u32)
    }
}

/// An address error on `a`: BadVaddr takes it and the exception is entered.
pub open spec fn address_error(c: CPU, a: u32, e: ExceptionType) -> CPU {
    (CPU { cop0: COP0 { bad_addr: a, ..c.cop0 }, ..c }).exception_entered(e)
}

/// Whether the cache is isolated: stores then do not reach the bus.
pub open spec fn isolated(c: CPU) -> bool {
    c.cop0.sr.bits & StatusRegister::ISOLATE_CACHE == StatusRegister::ISOLATE_CACHE
}

/// The error a store to `address` that the bus does not take stops with.
pub open spec fn store_error(address: u32, value: u32) -> CpuError {
    let a = translate(address);
    if a == 0x1f801810 || a == 0x1f801814 {
        CpuError::UnsupportedWrite(address, value)
    } else {
        CpuError::UnmappedAddress(address)
    }
}

/// What a word store of `value` to `address` from state `c` leads to, and its result.
pub open spec fn stored32(c: CPU, new: CPU, address: u32, value: u32, r: Result<usize, CpuError>) -> bool {
    if isolated(c) {
        r == Ok::<usize, CpuError>(2) && new == c
    } else if c.bus.can_write32(address, value) {
        &&& r == Ok::<usize, CpuError>(2)
        &&& Bus::write32_effect(&c.bus, &new.bus, translate(address), value)
        &&& new == (CPU { bus: new.bus, ..c })
    } else {
        r == Err::<usize, CpuError>(store_error(address, value)) && new == c
    }
}

/// `new` is `old` with the bus replaced and a delayed load of `v` into register `i`.
pub open spec fn loaded(old: CPU, new: CPU, i: usize, v: u32) -> bool {
    new == (CPU { bus: new.bus, ..old }).load_delayed(i, v)
}

fn merge_lwl(cur: u32, word: u32, a: u32) -> (r: u32)
    ensures
        r == lwl_merge(cur, word, a),
{
    let low = a & 0x3;
    if low == 0 {
        (cur & 0xffffff) | (word << 24)
    } else if low == 1 {
        (cur & 0xffff) | (word << 16)
    } else if low == 2 {
        (cur & 0xff) | (word << 8)
    } else {
        word
    }
}

fn merge_lwr(cur: u32, word: u32, a: u32) -> (r: u32)
    ensures
        r == lwr_merge(cur, word, a),
{
    let low = a & 0x3;
    if low == 0 {
        word
    } else if low == 1 {
        (cur & 0xff000000) | (word >> 8)
    } else if low == 2 {
        (cur & 0xffff0000) | (word >> 16)
    } else {
        (cur & 0xffffff00) | (word >> 24)
    }
}

fn merge_swl(mem: u32, value: u32, a: u32) -> (r: u32)
    ensures
        r == swl_merge(mem, value, a),
{
    let low = a & 0x3;
    if low == 0 {
        (mem & 0xffffff00) | (value >> 24)
    } else if low == 1 {
        (mem & 0xffff0000) | (value >> 16)
    } else if low == 2 {
        (mem & 0xff000000) | (value >> 8)
    } else {
        value
    }
}

fn merge_swr(mem: u32, value: u32, a: u32) -> (r: u32)
    ensures
        r == swr_merge(mem, value, a),
{
    let low = a & 0x3;
    if low == 0 {
        value
    } else if low == 1 {
        (mem & 0xff) | (value << 8)
    } else if low == 2 {
        (mem & 0xffff) | (value << 16)
    } else {
        (mem & 0xffffff) | (value << 24)
    }
}

fn store_error_for(bus: &Bus, address: u32, value: u32) -> (r: CpuError)
    ensures
        r == store_error(address, value),
{
    let a = Bus::translate_address(address);
    if a == 0x1f801810 || a == 0x1f801814 {
        CpuError::UnsupportedWrite(address, value)
    } else {
        CpuError::UnmappedAddress(address)
    }
}

impl CPU {
    fn address_exception(&mut self, address: u32, e: ExceptionType)
        ensures
            *final(self) == address_error(*old(self), address, e),
    {
        self.cop0.bad_addr = address;
        self.enter_exception(e);
    }

    fn merge_source(&self, i: usize) -> (r: u32)
        requires
            i < 32,
        ensures
            r == merge_base(*self, i),
    {
        match self.delayed_load {
            Some((register, value)) => if register == i { value } else { self.r.0[i] },
            None => self.r.0[i],
        }
    }

    fn load_address(&self, instruction: &Instruction) -> (r: u32)
        ensures
            r == effective_address(*self, instruction.0),
    {
        self.r.0[instruction.rs()].wrapping_add(instruction.signed_immediate16() as u32)
    }

    /// A byte store; with the cache isolated it does nothing.
    pub fn store8(&mut self, address: u32, value: u8) -> (r: Result<(), CpuError>)
        requires
            old(self).wf(),
        ensures
            final(self).wf(),
            isolated(*old(self)) ==> r is Ok && *final(self) == *old(self),
            !isolated(*old(self)) && old(self).bus.can_write8(address) ==> r is Ok
                && Bus::write8_effect(&old(self).bus, &final(self).bus, translate(address), value)
                && *final(self) == (CPU { bus: final(self).bus, ..*old(self) }),
            !isolated(*old(self)) && !old(self).bus.can_write8(address) ==> r == Err::<(), CpuError>(CpuError::UnmappedAddress(address))
                && *final(self) == *old(self),
    {
        if self.cop0.sr.contains(StatusRegister::ISOLATE_CACHE) {
            return Ok(());
        }
        if !self.bus.check_write8(address) {
            return Err(CpuError::UnmappedAddress(address));
        }
        self.bus.mem_write8(address, value);
        Ok(())
    }

    /// A halfword store; with the cache isolated it does nothing.
    pub fn store16(&mut self, address: u32, value: u16) -> (r: Result<(), CpuError>)
        requires
            old(self).wf(),
        ensures
            final(self).wf(),
            isolated(*old(self)) ==> r is Ok && *final(self) == *old(self),
            !isolated(*old(self)) && old(self).bus.can_write16(address, value) ==> r is Ok
                && Bus::write16_effect(&old(self).bus, &final(self).bus, translate(address), value)
                && *final(self) == (CPU { bus: final(self).bus, ..*old(self) }),
            !isolated(*old(self)) && !old(self).bus.can_write16(address, value) ==> r == Err::<(), CpuError>(CpuError::UnmappedAddress(address))
                && *final(self) == *old(self),
    {
        if self.cop0.sr.contains(StatusRegister::ISOLATE_CACHE) {
            return Ok(());
        }
        if !self.bus.check_write16(address, value) {
            return Err(CpuError::UnmappedAddress(address));
        }
        self.bus.mem_write16(address, value);
        Ok(())
    }

    /// A word store; with the cache isolated it does nothing.
    pub fn store32(&mut self, address: u32, value: u32) -> (r: Result<(), CpuError>)
        requires
            old(self).wf(),
        ensures
            final(self).wf(),
            isolated(*old(self)) ==> r is Ok && *final(self) == *old(self),
            !isolated(*old(self)) && old(self).bus.can_write32(address, value) ==> r is Ok
                && Bus::write32_effect(&old(self).bus, &final(self).bus, translate(address), value)
                && *final(self) == (CPU { bus: final(self).bus, ..*old(self) }),
            !isolated(*old(self)) && !old(self).bus.can_write32(address, value) ==> r == Err::<(), CpuError>(store_error(address, value))
                && *final(self) == *old(self),
    {
        if self.cop0.sr.contains(StatusRegister::ISOLATE_CACHE) {
            return Ok(());
        }
        if !self.bus.check_write32(address, value) {
            return Err(store_error_for(&self.bus, address, value));
        }
        self.bus.mem_write32(address, value);
        Ok(())
    }

    pub fn lb(&mut self, instruction: Instruction) -> (r: Result<usize, CpuError>)
        requires
            old(self).wf(),
        ensures
            final(self).wf(),
            effect_lb(*old(self), *final(self), instruction.0, r),
    {
        let address = self.load_address(&instruction);
        if !self.bus.check_read8(address) {
            return Err(CpuError::UnmappedAddress(address));
        }
        let value = self.bus.mem_read8(address) as i8 as i16 as i32 as u32;
        self.update_load(instruction.rt(), value);
        Ok(2)
    }

    pub fn lbu(&mut self, instruction: Instruction) -> (r: Result<usize, CpuError>)
        requires
            old(self).wf(),
        ensures
            final(self).wf(),
            effect_lbu(*old(self), *final(self), instruction.0, r),
    {
        let address = self.load_address(&instruction);
        if !self.bus.check_read8(address) {
            return Err(CpuError::UnmappedAddress(address));
        }
        let value = self.bus.mem_read8(address);
        self.update_load(instruction.rt(), value);
        Ok(2)
    }

    pub fn lh(&mut self, instruction: Instruction) -> (r: Result<usize, CpuError>)
        requires
            old(self).wf(),
        ensures
            final(self).wf(),
            effect_lh(*old(self), *final(self), instruction.0, r),
    {
        let address = self.load_address(&instruction);
        if address & 1 == 0 {
            if !self.bus.check_read16(address) {
                return Err(CpuError::UnmappedAddress(address));
            }
            let value = self.bus.mem_read16(address) as i16 as i32 as u32;
            self.update_load(instruction.rt(), value);
        } else {
            self.address_exception(address, ExceptionType::LoadAddressError);
        }
        Ok(2)
    }

    pub fn lhu(&mut self, instruction: Instruction) -> (r: Result<usize, CpuError>)
        requires
            old(self).wf(),
        ensures
            final(self).wf(),
            effect_lhu(*old(self), *final(self), instruction.0, r),
    {
        let address = self.load_address(&instruction);
        if address & 1 == 0 {
            if !self.bus.check_read16(address) {
                return Err(CpuError::UnmappedAddress(address));
            }
            let value = self.bus.mem_read16(address);
            self.update_load(instruction.rt(), value);
        } else {
            self.address_exception(address, ExceptionType::LoadAddressError);
        }
        Ok(2)
    }

    pub fn lw(&mut self, instruction: Instruction) -> (r: Result<usize, CpuError>)
        requires
            old(self).wf(),
        ensures
            final(self).wf(),
            effect_lw(*old(self), *final(self), instruction.0, r),
    {
        let address = self.load_address(&instruction);
        if address & 0x3 == 0 {
            if !self.bus.check_read32(address) {
                return Err(CpuError::UnmappedAddress(address));
            }
            let value = self.bus.mem_read32(address);
            self.update_load(instruction.rt(), value);
            assert(loaded(*old(self), *self, op_rt(instruction.0), value));
        } else {
            self.address_exception(address, ExceptionType::LoadAddressError);
        }
        Ok(2)
    }
}


impl CPU {
    /// Load word left: merges the aligned word into the high end of the register (a pending
    /// load of it counts).
    pub fn lwl(&mut self, instruction: Instruction) -> (r: Result<usize, CpuError>)
        requires
            old(self).wf(),
        ensures
            final(self).wf(),
            effect_lwl(*old(self), *final(self), instruction.0, r),
    {
        let address = self.load_address(&instruction);
        let result = self.merge_source(instruction.rt());
        let aligned_address = address & !3;
        if !self.bus.check_read32(aligned_address) {
            return Err(CpuError::UnmappedAddress(aligned_address));
        }
        let aligned_word = self.bus.mem_read32(aligned_address);
        let merged = merge_lwl(result, aligned_word, address);
        self.update_load(instruction.rt(), merged);
        assert(loaded(*old(self), *self, op_rt(instruction.0), lwl_merge(result, aligned_word, address)));
        Ok(2)
    }

    /// Load word right: merges the aligned word into the low end of the register (a pending
    /// load of it counts).
    pub fn lwr(&mut self, instruction: Instruction) -> (r: Result<usize, CpuError>)
        requires
            old(self).wf(),
        ensures
            final(self).wf(),
            effect_lwr(*old(self), *final(self), instruction.0, r),
    {
        let address = self.load_address(&instruction);
        let result = self.merge_source(instruction.rt());
        let aligned_address = address & !3;
        if !self.bus.check_read32(aligned_address) {
            return Err(CpuError::UnmappedAddress(aligned_address));
        }
        let aligned_word = self.bus.mem_read32(aligned_address);
        let merged = merge_lwr(result, aligned_word, address);
        self.update_load(instruction.rt(), merged);
        assert(loaded(*old(self), *self, op_rt(instruction.0), lwr_merge(result, aligned_word, address)));
        Ok(2)
    }

    pub fn sb(&mut self, instruction: Instruction) -> (r: Result<usize, CpuError>)
        requires
            old(self).wf(),
        ensures
            final(self).wf(),
            effect_sb(*old(self), *final(self), instruction.0, r),
    {
        let address = self.load_address(&instruction);
        let value = self.r.0[instruction.rt()] as u8;
        match self.store8(address, value) {
            Ok(()) => Ok(2),
            Err(e) => Err(e),
        }
    }

    pub fn sh(&mut self, instruction: Instruction) -> (r: Result<usize, CpuError>)
        requires
            old(self).wf(),
        ensures
            final(self).wf(),
            effect_sh(*old(self), *final(self), instruction.0, r),
    {
        let address = self.load_address(&instruction);
        if address & 1 == 0 {
            let value = self.r.0[instruction.rt()] as u16;
            match self.store16(address, value) {
                Ok(()) => Ok(2),
                Err(e) => Err(e),
            }
        } else {
            self.address_exception(address, ExceptionType::StoreAddressError);
            Ok(2)
        }
    }

    pub fn sw(&mut self, instruction: Instruction) -> (r: Result<usize, CpuError>)
        requires
            old(self).wf(),
        ensures
            final(self).wf(),
            effect_sw(*old(self), *final(self), instruction.0, r),
    {
        let address = self.load_address(&instruction);
        if address & 0x3 == 0 {
            let value = self.r.0[instruction.rt()];
            match self.store32(address, value) {
                Ok(()) => Ok(2),
                Err(e) => Err(e),
            }
        } else {
            self.address_exception(address, ExceptionType::StoreAddressError);
            Ok(2)
        }
    }
}


impl CPU {
    /// Store word left: the register's high bytes replace the low end of the aligned word.
    pub fn swl(&mut self, instruction: Instruction) -> (r: Result<usize, CpuError>)
        requires
            old(self).wf(),
        ensures
            final(self).wf(),
            effect_swl(*old(self), *final(self), instruction.0, r),
    {
        let address = self.load_address(&instruction);
        let value = self.r.0[instruction.rt()];
        let aligned_address = address & !3;
        if !self.bus.check_read32(aligned_address) {
            return Err(CpuError::UnmappedAddress(aligned_address));
        }
        let mem_value = self.bus.mem_read32(aligned_address);
        let ghost mid = self.bus;
        let result = merge_swl(mem_value, value, address);
        let stored = self.store32(aligned_address, result);
        let r = match stored {
            Ok(()) => Ok(2),
            Err(e) => Err(e),
        };
        assert(Bus::read32_effect(&old(self).bus, &mid, translate(aligned_address), mem_value));
        assert(stored32(CPU { bus: mid, ..*old(self) }, *self, aligned_address, swl_merge(mem_value, value, address), r));
        r
    }

    /// Store word right: the register's low bytes replace the high end of the aligned word.
    pub fn swr(&mut self, instruction: Instruction) -> (r: Result<usize, CpuError>)
        requires
            old(self).wf(),
        ensures
            final(self).wf(),
            effect_swr(*old(self), *final(self), instruction.0, r),
    {
        let address = self.load_address(&instruction);
        let value = self.r.0[instruction.rt()];
        let aligned_address = address & !3;
        if !self.bus.check_read32(aligned_address) {
            return Err(CpuError::UnmappedAddress(aligned_address));
        }
        let mem_value = self.bus.mem_read32(aligned_address);
        let ghost mid = self.bus;
        let result = merge_swr(mem_value, value, address);
        let stored = self.store32(aligned_address, result);
        let r = match stored {
            Ok(()) => Ok(2),
            Err(e) => Err(e),
        };
        assert(Bus::read32_effect(&old(self).bus, &mid, translate(aligned_address), mem_value));
        assert(stored32(CPU { bus: mid, ..*old(self) }, *self, aligned_address, swr_merge(mem_value, value, address), r));
        r
    }

    /// COP0 operations: MFC0 (a delayed load), MTC0 and RFE.
    pub fn cop0(&mut self, instruction: Instruction) -> (r: Result<usize, CpuError>)
        requires
            old(self).wf(),
        ensures
            final(self).wf(),
            effect_cop0(*old(self), *final(self), instruction.0, r),
    {
        let upper = instruction.0 >> 28;
        let mid = (instruction.0 >> 21) & 0x1f;
        if upper != 4 {
            return Err(CpuError::Cop0(instruction.0));
        }
        let rd = instruction.rd();
        if mid == 0 {
            if !(rd == 0x6 || rd == 0x7 || rd == 0x8 || rd == 0xc || rd == 0xd || rd == 0xe || rd == 0xf) {
                return Err(CpuError::Cop0(instruction.0));
            }
            let value = self.cop0.mfc0(rd);
            self.update_load(instruction.rt(), value);
        } else if mid == 4 {
            if !(rd == 0x3 || rd == 0x5 || rd == 0x6 || rd == 0x7 || rd == 0x9 || rd == 0xb || rd == 0xc || rd == 0xd) {
                return Err(CpuError::Cop0(instruction.0));
            }
            let value = self.r.0[instruction.rt()];
            self.cop0.mtc0(rd, value);
        } else if mid == 0x10 {
            self.cop0.rfe();
        } else {
            return Err(CpuError::Cop0(instruction.0));
        }
        Ok(2)
    }

    /// An opcode the processor does not define.
    pub fn reserved(&mut self, instruction: Instruction) -> (r: Result<usize, CpuError>)
        requires
            old(self).wf(),
        ensures
            final(self).wf(),
            effect_reserved(*old(self), *final(self), instruction.0, r),
    {
        Err(CpuError::ReservedInstruction(instruction.0))
    }

    /// Coprocessor 1 does not exist on this machine.
    pub fn cop1(&mut self, instruction: Instruction) -> (r: Result<usize, CpuError>)
        requires
            old(self).wf(),
        ensures
            final(self).wf(),
            effect_cop1(*old(self), *final(self), instruction.0, r),
    {
        Err(CpuError::ReservedInstruction(instruction.0))
    }

    /// Coprocessor 3 does not exist on this machine.
    pub fn cop3(&mut self, instruction: Instruction) -> (r: Result<usize, CpuError>)
        requires
            old(self).wf(),
        ensures
            final(self).wf(),
            effect_cop3(*old(self), *final(self), instruction.0, r),
    {
        Err(CpuError::ReservedInstruction(instruction.0))
    }

    /// A GTE operation: this crate has no GTE.
    pub fn cop2(&mut self, instruction: Instruction) -> (r: Result<usize, CpuError>)
        requires
            old(self).wf(),
        ensures
            final(self).wf(),
            effect_cop2(*old(self), *final(self), instruction.0, r),
    {
        Err(CpuError::Gte(instruction.0))
    }

    /// A load into GTE data: this crate has no GTE.
    pub fn lwc2(&mut self, instruction: Instruction) -> (r: Result<usize, CpuError>)
        requires
            old(self).wf(),
        ensures
            final(self).wf(),
            effect_lwc2(*old(self), *final(self), instruction.0, r),
    {
        Err(CpuError::Gte(instruction.0))
    }

    /// A store from GTE data: this crate has no GTE.
    pub fn swc2(&mut self, instruction: Instruction) -> (r: Result<usize, CpuError>)
        requires
            old(self).wf(),
        ensures
            final(self).wf(),
            effect_swc2(*old(self), *final(self), instruction.0, r),
    {
        Err(CpuError::Gte(instruction.0))
    }

    /// Coprocessor loads and stores other than the GTE's are not implemented.
    pub fn lwc0(&mut self, instruction: Instruction) -> (r: Result<usize, CpuError>)
        requires
            old(self).wf(),
        ensures
            final(self).wf(),
            effect_lwc0(*old(self), *final(self), instruction.0, r),
    {
        Err(CpuError::ReservedInstruction(instruction.0))
    }

    pub fn lwc1(&mut self, instruction: Instruction) -> (r: Result<usize, CpuError>)
        requires
            old(self).wf(),
        ensures
            final(self).wf(),
            effect_lwc1(*old(self), *final(self), instruction.0, r),
    {
        Err(CpuError::ReservedInstruction(instruction.0))
    }

    pub fn lwc3(&mut self, instruction: Instruction) -> (r: Result<usize, CpuError>)
        requires
            old(self).wf(),
        ensures
            final(self).wf(),
            effect_lwc3(*old(self), *final(self), instruction.0, r),
    {
        Err(CpuError::ReservedInstruction(instruction.0))
    }

    pub fn swc0(&mut self, instruction: Instruction) -> (r: Result<usize, CpuError>)
        requires
            old(self).wf(),
        ensures
            final(self).wf(),
            effect_swc0(*old(self), *final(self), instruction.0, r),
    {
        Err(CpuError::ReservedInstruction(instruction.0))
    }

    pub fn swc1(&mut self, instruction: Instruction) -> (r: Result<usize, CpuError>)
        requires
            old(self).wf(),
        ensures
            final(self).wf(),
            effect_swc1(*old(self), *final(self), instruction.0, r),
    {
        Err(CpuError::ReservedInstruction(instruction.0))
    }

    pub fn swc3(&mut self, instruction: Instruction) -> (r: Result<usize, CpuError>)
        requires
            old(self).wf(),
        ensures
            final(self).wf(),
            effect_swc3(*old(self), *final(self), instruction.0, r),
    {
        Err(CpuError::ReservedInstruction(instruction.0))
    }
}

pub open spec fn effect_bltz(c: CPU, new: CPU, w: u32, r: Result<usize, CpuError>) -> bool {
    &&& r == Ok::<usize, CpuError>(2)
    &&& new == branch_if(c, w, (c.reg(op_rs(w)) as i32) < 0)
}

pub open spec fn effect_bgez(c: CPU, new: CPU, w: u32, r: Result<usize, CpuError>) -> bool {
    &&& r == Ok::<usize, CpuError>(2)
    &&& new == branch_if(c, w, (c.reg(op_rs(w)) as i32) >= 0)
}

pub open spec fn effect_bltzal(c: CPU, new: CPU, w: u32, r: Result<usize, CpuError>) -> bool {
    &&& r == Ok::<usize, CpuError>(2)
    &&& new == branch_link_if(c, w, (c.reg(op_rs(w)) as i32) < 0)
}

pub open spec fn effect_bgezal(c: CPU, new: CPU, w: u32, r: Result<usize, CpuError>) -> bool {
    &&& r == Ok::<usize, CpuError>(2)
    &&& new == branch_link_if(c, w, (c.reg(op_rs(w)) as i32) >= 0)
}

pub open spec fn effect_bcondz(c: CPU, new: CPU, w: u32, r: Result<usize, CpuError>) -> bool {
    &&& r == Ok::<usize, CpuError>(2)
    &&& ({
                let ge = op_rt(w) & 1 == 1;
        let link = op_rt(w) & 0x1e == 0x10;
        let v = c.reg(op_rs(w)) as i32;
        let taken = if ge { v >= 0 } else { v < 0 };
        new == if link { branch_link_if(c, w, taken) } else { branch_if(c, w, taken) }
    })
}

pub open spec fn effect_j(c: CPU, new: CPU, w: u32, r: Result<usize, CpuError>) -> bool {
    &&& r == Ok::<usize, CpuError>(2)
    &&& new == c.branched((c.pc & 0xf000_0000) | ((w & 0x3ffffff) << 2u32))
}

pub open spec fn effect_jal(c: CPU, new: CPU, w: u32, r: Result<usize, CpuError>) -> bool {
    &&& r == Ok::<usize, CpuError>(2)
    &&& new == c.with_result(RA_REGISTER, c.next_pc).branched(
        (c.pc & 0xf000_0000) | ((w & 0x3ffffff) << 2u32),
    )
}

pub open spec fn effect_beq(c: CPU, new: CPU, w: u32, r: Result<usize, CpuError>) -> bool {
    &&& r == Ok::<usize, CpuError>(2)
    &&& new == branch_if(c, w, c.reg(op_rs(w)) == c.reg(op_rt(w)))
}

pub open spec fn effect_bne(c: CPU, new: CPU, w: u32, r: Result<usize, CpuError>) -> bool {
    &&& r == Ok::<usize, CpuError>(2)
    &&& new == branch_if(c, w, c.reg(op_rs(w)) != c.reg(op_rt(w)))
}

pub open spec fn effect_blez(c: CPU, new: CPU, w: u32, r: Result<usize, CpuError>) -> bool {
    &&& r == Ok::<usize, CpuError>(2)
    &&& new == branch_if(c, w, (c.reg(op_rs(w)) as i32) <= 0)
}

pub open spec fn effect_bgtz(c: CPU, new: CPU, w: u32, r: Result<usize, CpuError>) -> bool {
    &&& r == Ok::<usize, CpuError>(2)
    &&& new == branch_if(c, w, (c.reg(op_rs(w)) as i32) > 0)
}

pub open spec fn effect_addi(c: CPU, new: CPU, w: u32, r: Result<usize, CpuError>) -> bool {
    &&& r == Ok::<usize, CpuError>(2)
    &&& ({
                let sum = (c.reg(op_rs(w)) as i32) as int + op_simm(w) as int;
        new == if i32::MIN <= sum <= i32::MAX {
            c.with_result(op_rt(w), sum as u32)
        } else {
            CPU { ignored_load_delay: Some(op_rt(w)), ..c.exception_entered(ExceptionType::Overflow) }
        }
    })
}

pub open spec fn effect_addiu(c: CPU, new: CPU, w: u32, r: Result<usize, CpuError>) -> bool {
    &&& r == Ok::<usize, CpuError>(2)
    &&& new == c.with_result(op_rt(w), effective_address(c, w))
}

pub open spec fn effect_slti(c: CPU, new: CPU, w: u32, r: Result<usize, CpuError>) -> bool {
    &&& r == Ok::<usize, CpuError>(2)
    &&& new == c.with_result(op_rt(w),
        if (c.reg(op_rs(w)) as i32) < op_simm(w) { 1 } else { 0 })
}

pub open spec fn effect_sltiu(c: CPU, new: CPU, w: u32, r: Result<usize, CpuError>) -> bool {
    &&& r == Ok::<usize, CpuError>(2)
    &&& new == c.with_result(op_rt(w),
        if c.reg(op_rs(w)) < op_simm(w) as u32 { 1 } else { 0 })
}

pub open spec fn effect_andi(c: CPU, new: CPU, w: u32, r: Result<usize, CpuError>) -> bool {
    &&& r == Ok::<usize, CpuError>(2)
    &&& new == c.with_result(op_rt(w), c.reg(op_rs(w)) & op_imm(w))
}

pub open spec fn effect_ori(c: CPU, new: CPU, w: u32, r: Result<usize, CpuError>) -> bool {
    &&& r == Ok::<usize, CpuError>(2)
    &&& new == c.with_result(op_rt(w), c.reg(op_rs(w)) | op_imm(w))
}

pub open spec fn effect_xori(c: CPU, new: CPU, w: u32, r: Result<usize, CpuError>) -> bool {
    &&& r == Ok::<usize, CpuError>(2)
    &&& new == c.with_result(op_rt(w), c.reg(op_rs(w)) ^ op_imm(w))
}

pub open spec fn effect_lui(c: CPU, new: CPU, w: u32, r: Result<usize, CpuError>) -> bool {
    &&& r == Ok::<usize, CpuError>(2)
    &&& new == c.with_result(op_rt(w), op_imm(w) << 16u32)
}

pub open spec fn effect_sll(c: CPU, new: CPU, w: u32, r: Result<usize, CpuError>) -> bool {
    &&& r == Ok::<usize, CpuError>(2)
    &&& new == c.with_result(op_rd(w), c.reg(op_rt(w)) << op_shamt(w))
}

pub open spec fn effect_srl(c: CPU, new: CPU, w: u32, r: Result<usize, CpuError>) -> bool {
    &&& r == Ok::<usize, CpuError>(2)
    &&& new == c.with_result(op_rd(w), c.reg(op_rt(w)) >> op_shamt(w))
}

pub open spec fn effect_sra(c: CPU, new: CPU, w: u32, r: Result<usize, CpuError>) -> bool {
    &&& r == Ok::<usize, CpuError>(2)
    &&& new == c.with_result(op_rd(w), ((c.reg(op_rt(w)) as i32) >> op_shamt(w)) as u32)
}

pub open spec fn effect_sllv(c: CPU, new: CPU, w: u32, r: Result<usize, CpuError>) -> bool {
    &&& r == Ok::<usize, CpuError>(2)
    &&& new == c.with_result(op_rd(w), c.reg(op_rt(w)) << (c.reg(op_rs(w)) & 0x1f))
}

pub open spec fn effect_srlv(c: CPU, new: CPU, w: u32, r: Result<usize, CpuError>) -> bool {
    &&& r == Ok::<usize, CpuError>(2)
    &&& new == c.with_result(op_rd(w), c.reg(op_rt(w)) >> (c.reg(op_rs(w)) & 0x1f))
}

pub open spec fn effect_srav(c: CPU, new: CPU, w: u32, r: Result<usize, CpuError>) -> bool {
    &&& r == Ok::<usize, CpuError>(2)
    &&& new == c.with_result(op_rd(w), ((c.reg(op_rt(w)) as i32) >> (c.reg(op_rs(w)) & 0x1f)) as u32)
}

pub open spec fn effect_jr(c: CPU, new: CPU, w: u32, r: Result<usize, CpuError>) -> bool {
    &&& r == Ok::<usize, CpuError>(2)
    &&& new == c.branched(c.reg(op_rs(w)))
}

pub open spec fn effect_jalr(c: CPU, new: CPU, w: u32, r: Result<usize, CpuError>) -> bool {
    &&& r == Ok::<usize, CpuError>(2)
    &&& new == (CPU { next_pc: c.reg(op_rs(w)), branch_taken: true, ..c }).with_result(
        op_rd(w),
        c.next_pc,
    )
}

pub open spec fn effect_syscall(c: CPU, new: CPU, w: u32, r: Result<usize, CpuError>) -> bool {
    &&& r == Ok::<usize, CpuError>(2)
    &&& new == c.exception_entered(ExceptionType::Syscall)
}

pub open spec fn effect_break_(c: CPU, new: CPU, w: u32, r: Result<usize, CpuError>) -> bool {
    &&& r == Ok::<usize, CpuError>(2)
    &&& new == c.exception_entered(ExceptionType::Break)
}

pub open spec fn effect_mfhi(c: CPU, new: CPU, w: u32, r: Result<usize, CpuError>) -> bool {
    &&& r == Ok::<usize, CpuError>(2)
    &&& new == c.with_result(op_rd(w), c.hi)
}

pub open spec fn effect_mthi(c: CPU, new: CPU, w: u32, r: Result<usize, CpuError>) -> bool {
    &&& r == Ok::<usize, CpuError>(2)
    &&& new == (CPU { hi: c.reg(op_rs(w)), ..c })
}

pub open spec fn effect_mflo(c: CPU, new: CPU, w: u32, r: Result<usize, CpuError>) -> bool {
    &&& r == Ok::<usize, CpuError>(2)
    &&& new == c.with_result(op_rd(w), c.lo)
}

pub open spec fn effect_mtlo(c: CPU, new: CPU, w: u32, r: Result<usize, CpuError>) -> bool {
    &&& r == Ok::<usize, CpuError>(2)
    &&& new == (CPU { lo: c.reg(op_rs(w)), ..c })
}

pub open spec fn effect_mult(c: CPU, new: CPU, w: u32, r: Result<usize, CpuError>) -> bool {
    &&& r == Ok::<usize, CpuError>(2)
    &&& ({
        let p = (c.reg(op_rs(w)) as i32) as int * (c.reg(op_rt(w)) as i32) as int;
        new == with_hi_lo(c, ((p as i64) >> 32u64) as u32, p as u32)
    })
}

pub open spec fn effect_multu(c: CPU, new: CPU, w: u32, r: Result<usize, CpuError>) -> bool {
    &&& r == Ok::<usize, CpuError>(2)
    &&& ({
        let p = c.reg(op_rs(w)) as int * c.reg(op_rt(w)) as int;
        new == with_hi_lo(c, ((p as u64) >> 32u64) as u32, p as u32)
    })
}

pub open spec fn effect_div(c: CPU, new: CPU, w: u32, r: Result<usize, CpuError>) -> bool {
    &&& r == Ok::<usize, CpuError>(2)
    &&& ({
        let (hi, lo) = signed_division(c.reg(op_rs(w)) as i32, c.reg(op_rt(w)) as i32);
        new == with_hi_lo(c, hi, lo)
    })
}

pub open spec fn effect_divu(c: CPU, new: CPU, w: u32, r: Result<usize, CpuError>) -> bool {
    &&& r == Ok::<usize, CpuError>(2)
    &&& ({
        let n = c.reg(op_rs(w));
        let d = c.reg(op_rt(w));
        new == if d != 0 {
            with_hi_lo(c, n % d, n / d)
        } else {
            with_hi_lo(c, n, 0xffff_ffff)
        }
    })
}

pub open spec fn effect_add(c: CPU, new: CPU, w: u32, r: Result<usize, CpuError>) -> bool {
    &&& r == Ok::<usize, CpuError>(2)
    &&& ({
                let sum = (c.reg(op_rs(w)) as i32) as int + (c.reg(op_rt(w)) as i32) as int;
        new == if i32::MIN <= sum <= i32::MAX {
            c.with_result(op_rd(w), sum as u32)
        } else {
            c.exception_entered(ExceptionType::Overflow)
        }
    })
}

pub open spec fn effect_addu(c: CPU, new: CPU, w: u32, r: Result<usize, CpuError>) -> bool {
    &&& r == Ok::<usize, CpuError>(2)
    &&& new == c.with_result(op_rd(w), c.reg(op_rs(w)).wrapping_add(c.reg(op_rt(w))))
}

pub open spec fn effect_sub(c: CPU, new: CPU, w: u32, r: Result<usize, CpuError>) -> bool {
    &&& r == Ok::<usize, CpuError>(2)
    &&& ({
                let diff = (c.reg(op_rs(w)) as i32) as int - (c.reg(op_rt(w)) as i32) as int;
        new == if i32::MIN <= diff <= i32::MAX {
            c.with_result(op_rd(w), diff as u32)
        } else {
            c.exception_entered(ExceptionType::Overflow)
        }
    })
}

pub open spec fn effect_subu(c: CPU, new: CPU, w: u32, r: Result<usize, CpuError>) -> bool {
    &&& r == Ok::<usize, CpuError>(2)
    &&& new == c.with_result(op_rd(w), c.reg(op_rs(w)).wrapping_sub(c.reg(op_rt(w))))
}

pub open spec fn effect_and(c: CPU, new: CPU, w: u32, r: Result<usize, CpuError>) -> bool {
    &&& r == Ok::<usize, CpuError>(2)
    &&& new == c.with_result(op_rd(w), c.reg(op_rs(w)) & c.reg(op_rt(w)))
}

pub open spec fn effect_or(c: CPU, new: CPU, w: u32, r: Result<usize, CpuError>) -> bool {
    &&& r == Ok::<usize, CpuError>(2)
    &&& new == c.with_result(op_rd(w), c.reg(op_rs(w)) | c.reg(op_rt(w)))
}

pub open spec fn effect_xor(c: CPU, new: CPU, w: u32, r: Result<usize, CpuError>) -> bool {
    &&& r == Ok::<usize, CpuError>(2)
    &&& new == c.with_result(op_rd(w), c.reg(op_rs(w)) ^ c.reg(op_rt(w)))
}

pub open spec fn effect_nor(c: CPU, new: CPU, w: u32, r: Result<usize, CpuError>) -> bool {
    &&& r == Ok::<usize, CpuError>(2)
    &&& new == c.with_result(op_rd(w), !(c.reg(op_rs(w)) | c.reg(op_rt(w))))
}

pub open spec fn effect_slt(c: CPU, new: CPU, w: u32, r: Result<usize, CpuError>) -> bool {
    &&& r == Ok::<usize, CpuError>(2)
    &&& new == c.with_result(op_rd(w),
        if (c.reg(op_rs(w)) as i32) < (c.reg(op_rt(w)) as i32) { 1 } else { 0 })
}

pub open spec fn effect_sltu(c: CPU, new: CPU, w: u32, r: Result<usize, CpuError>) -> bool {
    &&& r == Ok::<usize, CpuError>(2)
    &&& new == c.with_result(op_rd(w),
        if c.reg(op_rs(w)) < c.reg(op_rt(w)) { 1 } else { 0 })
}

pub open spec fn effect_lb(c: CPU, new: CPU, w: u32, r: Result<usize, CpuError>) -> bool {
    &&& ({
        let a = effective_address(c, w);
        if c.bus.can_read8(a) {
            &&& r == Ok::<usize, CpuError>(2)
            &&& Bus::read8_effect(&c.bus, &new.bus, translate(a), c.bus.spec_read8(translate(a)))
            &&& loaded(c, new, op_rt(w), sext8(c.bus.spec_read8(translate(a))))
        } else {
            r == Err::<usize, CpuError>(CpuError::UnmappedAddress(a)) && new == c
        }
    })
}

pub open spec fn effect_lbu(c: CPU, new: CPU, w: u32, r: Result<usize, CpuError>) -> bool {
    &&& ({
        let a = effective_address(c, w);
        if c.bus.can_read8(a) {
            &&& r == Ok::<usize, CpuError>(2)
            &&& Bus::read8_effect(&c.bus, &new.bus, translate(a), c.bus.spec_read8(translate(a)))
            &&& loaded(c, new, op_rt(w), c.bus.spec_read8(translate(a)))
        } else {
            r == Err::<usize, CpuError>(CpuError::UnmappedAddress(a)) && new == c
        }
    })
}

pub open spec fn effect_lh(c: CPU, new: CPU, w: u32, r: Result<usize, CpuError>) -> bool {
    &&& ({
        let a = effective_address(c, w);
        if a & 1 != 0 {
            r == Ok::<usize, CpuError>(2) && new == address_error(c, a, ExceptionType::LoadAddressError)
        } else if c.bus.can_read16(a) {
            &&& r == Ok::<usize, CpuError>(2)
            &&& Bus::read16_effect(&c.bus, &new.bus, translate(a), c.bus.spec_read16(translate(a)))
            &&& loaded(c, new, op_rt(w), sext16(c.bus.spec_read16(translate(a))))
        } else {
            r == Err::<usize, CpuError>(CpuError::UnmappedAddress(a)) && new == c
        }
    })
}

pub open spec fn effect_lhu(c: CPU, new: CPU, w: u32, r: Result<usize, CpuError>) -> bool {
    &&& ({
        let a = effective_address(c, w);
        if a & 1 != 0 {
            r == Ok::<usize, CpuError>(2) && new == address_error(c, a, ExceptionType::LoadAddressError)
        } else if c.bus.can_read16(a) {
            &&& r == Ok::<usize, CpuError>(2)
            &&& Bus::read16_effect(&c.bus, &new.bus, translate(a), c.bus.spec_read16(translate(a)))
            &&& loaded(c, new, op_rt(w), c.bus.spec_read16(translate(a)))
        } else {
            r == Err::<usize, CpuError>(CpuError::UnmappedAddress(a)) && new == c
        }
    })
}

pub open spec fn effect_lw(c: CPU, new: CPU, w: u32, r: Result<usize, CpuError>) -> bool {
    &&& ({
        let a = effective_address(c, w);
        if a & 3 != 0 {
            r == Ok::<usize, CpuError>(2) && new == address_error(c, a, ExceptionType::LoadAddressError)
        } else if c.bus.can_read32(a) {
            &&& r == Ok::<usize, CpuError>(2)
            &&& exists|v: u32| #![trigger loaded(c, new, op_rt(w), v)]
                Bus::read32_effect(&c.bus, &new.bus, translate(a), v)
                && loaded(c, new, op_rt(w), v)
        } else {
            r == Err::<usize, CpuError>(CpuError::UnmappedAddress(a)) && new == c
        }
    })
}

pub open spec fn effect_lwl(c: CPU, new: CPU, w: u32, r: Result<usize, CpuError>) -> bool {
    &&& ({
        let a = effective_address(c, w);
        let aligned = a & !3u32;
        let cur = merge_base(c, op_rt(w));
        if c.bus.can_read32(aligned) {
            &&& r == Ok::<usize, CpuError>(2)
            &&& exists|word: u32| #![trigger lwl_merge(cur, word, a)]
                Bus::read32_effect(&c.bus, &new.bus, translate(aligned), word)
                && loaded(c, new, op_rt(w), lwl_merge(cur, word, a))
        } else {
            r == Err::<usize, CpuError>(CpuError::UnmappedAddress(aligned)) && new == c
        }
    })
}

pub open spec fn effect_lwr(c: CPU, new: CPU, w: u32, r: Result<usize, CpuError>) -> bool {
    &&& ({
        let a = effective_address(c, w);
        let aligned = a & !3u32;
        let cur = merge_base(c, op_rt(w));
        if c.bus.can_read32(aligned) {
            &&& r == Ok::<usize, CpuError>(2)
            &&& exists|word: u32| #![trigger lwr_merge(cur, word, a)]
                Bus::read32_effect(&c.bus, &new.bus, translate(aligned), word)
                && loaded(c, new, op_rt(w), lwr_merge(cur, word, a))
        } else {
            r == Err::<usize, CpuError>(CpuError::UnmappedAddress(aligned)) && new == c
        }
    })
}

pub open spec fn effect_sb(c: CPU, new: CPU, w: u32, r: Result<usize, CpuError>) -> bool {
    &&& ({
        let a = effective_address(c, w);
        let v = c.reg(op_rt(w)) as u8;
        if isolated(c) {
            r == Ok::<usize, CpuError>(2) && new == c
        } else if c.bus.can_write8(a) {
            &&& r == Ok::<usize, CpuError>(2)
            &&& Bus::write8_effect(&c.bus, &new.bus, translate(a), v)
            &&& new == (CPU { bus: new.bus, ..c })
        } else {
            r == Err::<usize, CpuError>(CpuError::UnmappedAddress(a)) && new == c
        }
    })
}

pub open spec fn effect_sh(c: CPU, new: CPU, w: u32, r: Result<usize, CpuError>) -> bool {
    &&& ({
        let a = effective_address(c, w);
        let v = c.reg(op_rt(w)) as u16;
        if a & 1 != 0 {
            r == Ok::<usize, CpuError>(2) && new == address_error(c, a, ExceptionType::StoreAddressError)
        } else if isolated(c) {
            r == Ok::<usize, CpuError>(2) && new == c
        } else if c.bus.can_write16(a, v) {
            &&& r == Ok::<usize, CpuError>(2)
            &&& Bus::write16_effect(&c.bus, &new.bus, translate(a), v)
            &&& new == (CPU { bus: new.bus, ..c })
        } else {
            r == Err::<usize, CpuError>(CpuError::UnmappedAddress(a)) && new == c
        }
    })
}

pub open spec fn effect_sw(c: CPU, new: CPU, w: u32, r: Result<usize, CpuError>) -> bool {
    &&& ({
        let a = effective_address(c, w);
        let v = c.reg(op_rt(w));
        if a & 3 != 0 {
            r == Ok::<usize, CpuError>(2) && new == address_error(c, a, ExceptionType::StoreAddressError)
        } else if isolated(c) {
            r == Ok::<usize, CpuError>(2) && new == c
        } else if c.bus.can_write32(a, v) {
            &&& r == Ok::<usize, CpuError>(2)
            &&& Bus::write32_effect(&c.bus, &new.bus, translate(a), v)
            &&& new == (CPU { bus: new.bus, ..c })
        } else {
            r == Err::<usize, CpuError>(store_error(a, v)) && new == c
        }
    })
}

pub open spec fn effect_swl(c: CPU, new: CPU, w: u32, r: Result<usize, CpuError>) -> bool {
    &&& ({
        let a = effective_address(c, w);
        let aligned = a & !3u32;
        let v = c.reg(op_rt(w));
        if c.bus.can_read32(aligned) {
            exists|mid: Bus, mem: u32| #[trigger] Bus::read32_effect(&c.bus, &mid, translate(aligned), mem)
                && stored32(CPU { bus: mid, ..c }, new, aligned, swl_merge(mem, v, a), r)
        } else {
            r == Err::<usize, CpuError>(CpuError::UnmappedAddress(aligned)) && new == c
        }
    })
}

pub open spec fn effect_swr(c: CPU, new: CPU, w: u32, r: Result<usize, CpuError>) -> bool {
    &&& ({
        let a = effective_address(c, w);
        let aligned = a & !3u32;
        let v = c.reg(op_rt(w));
        if c.bus.can_read32(aligned) {
            exists|mid: Bus, mem: u32| #[trigger] Bus::read32_effect(&c.bus, &mid, translate(aligned), mem)
                && stored32(CPU { bus: mid, ..c }, new, aligned, swr_merge(mem, v, a), r)
        } else {
            r == Err::<usize, CpuError>(CpuError::UnmappedAddress(aligned)) && new == c
        }
    })
}

pub open spec fn effect_cop0(c: CPU, new: CPU, w: u32, r: Result<usize, CpuError>) -> bool {
    &&& ({
                let mid = (w >> 21u32) & 0x1f;
        let rd = op_rd(w);
        if w >> 28u32 == 4 && mid == 0 && mfc0_readable(rd) {
            r == Ok::<usize, CpuError>(2) && new == c.load_delayed(op_rt(w), c.cop0.spec_read(rd))
        } else if w >> 28u32 == 4 && mid == 4 && mtc0_writable(rd) {
            r == Ok::<usize, CpuError>(2) && new == (CPU { cop0: c.cop0.written(rd, c.reg(op_rt(w))), ..c })
        } else if w >> 28u32 == 4 && mid == 0x10 {
            r == Ok::<usize, CpuError>(2) && new == (CPU { cop0: c.cop0.returned_from_exception(), ..c })
        } else {
            r == Err::<usize, CpuError>(CpuError::Cop0(w)) && new == c
        }
    })
}

pub open spec fn effect_reserved(c: CPU, new: CPU, w: u32, r: Result<usize, CpuError>) -> bool {
    &&& r == Err::<usize, CpuError>(CpuError::ReservedInstruction(w))
    &&& new == c
}

pub open spec fn effect_cop1(c: CPU, new: CPU, w: u32, r: Result<usize, CpuError>) -> bool {
    &&& r == Err::<usize, CpuError>(CpuError::ReservedInstruction(w))
    &&& new == c
}

pub open spec fn effect_cop3(c: CPU, new: CPU, w: u32, r: Result<usize, CpuError>) -> bool {
    &&& r == Err::<usize, CpuError>(CpuError::ReservedInstruction(w))
    &&& new == c
}

pub open spec fn effect_cop2(c: CPU, new: CPU, w: u32, r: Result<usize, CpuError>) -> bool {
    &&& r == Err::<usize, CpuError>(CpuError::Gte(w))
    &&& new == c
}

pub open spec fn effect_lwc2(c: CPU, new: CPU, w: u32, r: Result<usize, CpuError>) -> bool {
    &&& r == Err::<usize, CpuError>(CpuError::Gte(w))
    &&& new == c
}

pub open spec fn effect_swc2(c: CPU, new: CPU, w: u32, r: Result<usize, CpuError>) -> bool {
    &&& r == Err::<usize, CpuError>(CpuError::Gte(w))
    &&& new == c
}

pub open spec fn effect_lwc0(c: CPU, new: CPU, w: u32, r: Result<usize, CpuError>) -> bool {
    &&& r == Err::<usize, CpuError>(CpuError::ReservedInstruction(w))
    &&& new == c
}

pub open spec fn effect_lwc1(c: CPU, new: CPU, w: u32, r: Result<usize, CpuError>) -> bool {
    &&& r == Err::<usize, CpuError>(CpuError::ReservedInstruction(w))
    &&& new == c
}

pub open spec fn effect_lwc3(c: CPU, new: CPU, w: u32, r: Result<usize, CpuError>) -> bool {
    &&& r == Err::<usize, CpuError>(CpuError::ReservedInstruction(w))
    &&& new == c
}

pub open spec fn effect_swc0(c: CPU, new: CPU, w: u32, r: Result<usize, CpuError>) -> bool {
    &&& r == Err::<usize, CpuError>(CpuError::ReservedInstruction(w))
    &&& new == c
}

pub open spec fn effect_swc1(c: CPU, new: CPU, w: u32, r: Result<usize, CpuError>) -> bool {
    &&& r == Err::<usize, CpuError>(CpuError::ReservedInstruction(w))
    &&& new == c
}

pub open spec fn effect_swc3(c: CPU, new: CPU, w: u32, r: Result<usize, CpuError>) -> bool {
    &&& r == Err::<usize, CpuError>(CpuError::ReservedInstruction(w))
    &&& new == c
}

/// What executing an opcode-0 instruction, by its function field (bits 0..5) does.
pub open spec fn special_effect(c: CPU, new: CPU, w: u32, r: Result<usize, CpuError>) -> bool {
    let sel = w & 0x3f;
    if sel == 0x00 {
        effect_sll(c, new, w, r)
    } else if sel == 0x02 {
        effect_srl(c, new, w, r)
    } else if sel == 0x03 {
        effect_sra(c, new, w, r)
    } else if sel == 0x04 {
        effect_sllv(c, new, w, r)
    } else if sel == 0x06 {
        effect_srlv(c, new, w, r)
    } else if sel == 0x07 {
        effect_srav(c, new, w, r)
    } else if sel == 0x08 {
        effect_jr(c, new, w, r)
    } else if sel == 0x09 {
        effect_jalr(c, new, w, r)
    } else if sel == 0x0c {
        effect_syscall(c, new, w, r)
    } else if sel == 0x0d {
        effect_break_(c, new, w, r)
    } else if sel == 0x10 {
        effect_mfhi(c, new, w, r)
    } else if sel == 0x11 {
        effect_mthi(c, new, w, r)
    } else if sel == 0x12 {
        effect_mflo(c, new, w, r)
    } else if sel == 0x13 {
        effect_mtlo(c, new, w, r)
    } else if sel == 0x18 {
        effect_mult(c, new, w, r)
    } else if sel == 0x19 {
        effect_multu(c, new, w, r)
    } else if sel == 0x1a {
        effect_div(c, new, w, r)
    } else if sel == 0x1b {
        effect_divu(c, new, w, r)
    } else if sel == 0x20 {
        effect_add(c, new, w, r)
    } else if sel == 0x21 {
        effect_addu(c, new, w, r)
    } else if sel == 0x22 {
        effect_sub(c, new, w, r)
    } else if sel == 0x23 {
        effect_subu(c, new, w, r)
    } else if sel == 0x24 {
        effect_and(c, new, w, r)
    } else if sel == 0x25 {
        effect_or(c, new, w, r)
    } else if sel == 0x26 {
        effect_xor(c, new, w, r)
    } else if sel == 0x27 {
        effect_nor(c, new, w, r)
    } else if sel == 0x2a {
        effect_slt(c, new, w, r)
    } else if sel == 0x2b {
        effect_sltu(c, new, w, r)
    } else {
        effect_reserved(c, new, w, r)
    }
}

/// What executing a branch, jump or immediate ALU instruction (opcodes 01h..0Fh) does.
pub open spec fn immediate_effect(c: CPU, new: CPU, w: u32, r: Result<usize, CpuError>) -> bool {
    let sel = w >> 26u32;
    if sel == 0x01 {
        effect_bcondz(c, new, w, r)
    } else if sel == 0x02 {
        effect_j(c, new, w, r)
    } else if sel == 0x03 {
        effect_jal(c, new, w, r)
    } else if sel == 0x04 {
        effect_beq(c, new, w, r)
    } else if sel == 0x05 {
        effect_bne(c, new, w, r)
    } else if sel == 0x06 {
        effect_blez(c, new, w, r)
    } else if sel == 0x07 {
        effect_bgtz(c, new, w, r)
    } else if sel == 0x08 {
        effect_addi(c, new, w, r)
    } else if sel == 0x09 {
        effect_addiu(c, new, w, r)
    } else if sel == 0x0a {
        effect_slti(c, new, w, r)
    } else if sel == 0x0b {
        effect_sltiu(c, new, w, r)
    } else if sel == 0x0c {
        effect_andi(c, new, w, r)
    } else if sel == 0x0d {
        effect_ori(c, new, w, r)
    } else if sel == 0x0e {
        effect_xori(c, new, w, r)
    } else if sel == 0x0f {
        effect_lui(c, new, w, r)
    } else {
        effect_reserved(c, new, w, r)
    }
}

/// What executing a coprocessor instruction or coprocessor load or store does.
pub open spec fn coprocessor_effect(c: CPU, new: CPU, w: u32, r: Result<usize, CpuError>) -> bool {
    let sel = w >> 26u32;
    if sel == 0x10 {
        effect_cop0(c, new, w, r)
    } else if sel == 0x11 {
        effect_cop1(c, new, w, r)
    } else if sel == 0x12 {
        effect_cop2(c, new, w, r)
    } else if sel == 0x13 {
        effect_cop3(c, new, w, r)
    } else if sel == 0x30 {
        effect_lwc0(c, new, w, r)
    } else if sel == 0x31 {
        effect_lwc1(c, new, w, r)
    } else if sel == 0x32 {
        effect_lwc2(c, new, w, r)
    } else if sel == 0x33 {
        effect_lwc3(c, new, w, r)
    } else if sel == 0x38 {
        effect_swc0(c, new, w, r)
    } else if sel == 0x39 {
        effect_swc1(c, new, w, r)
    } else if sel == 0x3a {
        effect_swc2(c, new, w, r)
    } else if sel == 0x3b {
        effect_swc3(c, new, w, r)
    } else {
        effect_reserved(c, new, w, r)
    }
}

/// What executing a load or store (opcodes 20h..2Eh) does.
pub open spec fn memory_effect(c: CPU, new: CPU, w: u32, r: Result<usize, CpuError>) -> bool {
    let sel = w >> 26u32;
    if sel == 0x20 {
        effect_lb(c, new, w, r)
    } else if sel == 0x21 {
        effect_lh(c, new, w, r)
    } else if sel == 0x22 {
        effect_lwl(c, new, w, r)
    } else if sel == 0x23 {
        effect_lw(c, new, w, r)
    } else if sel == 0x24 {
        effect_lbu(c, new, w, r)
    } else if sel == 0x25 {
        effect_lhu(c, new, w, r)
    } else if sel == 0x26 {
        effect_lwr(c, new, w, r)
    } else if sel == 0x28 {
        effect_sb(c, new, w, r)
    } else if sel == 0x29 {
        effect_sh(c, new, w, r)
    } else if sel == 0x2a {
        effect_swl(c, new, w, r)
    } else if sel == 0x2b {
        effect_sw(c, new, w, r)
    } else if sel == 0x2e {
        effect_swr(c, new, w, r)
    } else {
        effect_reserved(c, new, w, r)
    }
}

/// What executing instruction word `w` does: the opcode in bits 26..31 selects the
/// instruction, and for opcode 0 the function field in bits 0..5 does.
#[verifier::opaque]
pub open spec fn instruction_effect(c: CPU, new: CPU, w: u32, r: Result<usize, CpuError>) -> bool {
    let op = w >> 26u32;
    if op == 0 {
        special_effect(c, new, w, r)
    } else if op <= 0x0f {
        immediate_effect(c, new, w, r)
    } else if 0x20 <= op <= 0x2e {
        memory_effect(c, new, w, r)
    } else {
        coprocessor_effect(c, new, w, r)
    }
}

impl CPU {
    fn execute_special(&mut self, instruction: u32) -> (r: Result<usize, CpuError>)
        requires
            old(self).wf(),
            can_run_cycles(old(self).bus, 1),
            (instruction >> 21) & 0x1f < 32,
            (instruction >> 16) & 0x1f < 32,
            (instruction >> 11) & 0x1f < 32,
        ensures
            final(self).wf(),
            special_effect(*old(self), *final(self), instruction, r),
    {
        let sel = instruction & 0x3f;
        if sel == 0x00 {
            Ok(self.sll(Instruction(instruction)))
        } else if sel == 0x02 {
            Ok(self.srl(Instruction(instruction)))
        } else if sel == 0x03 {
            Ok(self.sra(Instruction(instruction)))
        } else if sel == 0x04 {
            Ok(self.sllv(Instruction(instruction)))
        } else if sel == 0x06 {
            Ok(self.srlv(Instruction(instruction)))
        } else if sel == 0x07 {
            Ok(self.srav(Instruction(instruction)))
        } else if sel == 0x08 {
            Ok(self.jr(Instruction(instruction)))
        } else if sel == 0x09 {
            Ok(self.jalr(Instruction(instruction)))
        } else if sel == 0x0c {
            Ok(self.syscall(Instruction(instruction)))
        } else if sel == 0x0d {
            Ok(self.break_(Instruction(instruction)))
        } else if sel == 0x10 {
            Ok(self.mfhi(Instruction(instruction)))
        } else if sel == 0x11 {
            Ok(self.mthi(Instruction(instruction)))
        } else if sel == 0x12 {
            Ok(self.mflo(Instruction(instruction)))
        } else if sel == 0x13 {
            Ok(self.mtlo(Instruction(instruction)))
        } else if sel == 0x18 {
            Ok(self.mult(Instruction(instruction)))
        } else if sel == 0x19 {
            Ok(self.multu(Instruction(instruction)))
        } else if sel == 0x1a {
            Ok(self.div(Instruction(instruction)))
        } else if sel == 0x1b {
            Ok(self.divu(Instruction(instruction)))
        } else if sel == 0x20 {
            Ok(self.add(Instruction(instruction)))
        } else if sel == 0x21 {
            Ok(self.addu(Instruction(instruction)))
        } else if sel == 0x22 {
            Ok(self.sub(Instruction(instruction)))
        } else if sel == 0x23 {
            Ok(self.subu(Instruction(instruction)))
        } else if sel == 0x24 {
            Ok(self.and(Instruction(instruction)))
        } else if sel == 0x25 {
            Ok(self.or(Instruction(instruction)))
        } else if sel == 0x26 {
            Ok(self.xor(Instruction(instruction)))
        } else if sel == 0x27 {
            Ok(self.nor(Instruction(instruction)))
        } else if sel == 0x2a {
            Ok(self.slt(Instruction(instruction)))
        } else if sel == 0x2b {
            Ok(self.sltu(Instruction(instruction)))
        } else {
            self.reserved(Instruction(instruction))
        }
    }

    fn execute_immediate(&mut self, instruction: u32) -> (r: Result<usize, CpuError>)
        requires
            old(self).wf(),
            can_run_cycles(old(self).bus, 1),
            (instruction >> 21) & 0x1f < 32,
            (instruction >> 16) & 0x1f < 32,
            (instruction >> 11) & 0x1f < 32,
        ensures
            final(self).wf(),
            immediate_effect(*old(self), *final(self), instruction, r),
    {
        let sel = instruction >> 26;
        if sel == 0x01 {
            Ok(self.bcondz(Instruction(instruction)))
        } else if sel == 0x02 {
            Ok(self.j(Instruction(instruction)))
        } else if sel == 0x03 {
            Ok(self.jal(Instruction(instruction)))
        } else if sel == 0x04 {
            Ok(self.beq(Instruction(instruction)))
        } else if sel == 0x05 {
            Ok(self.bne(Instruction(instruction)))
        } else if sel == 0x06 {
            Ok(self.blez(Instruction(instruction)))
        } else if sel == 0x07 {
            Ok(self.bgtz(Instruction(instruction)))
        } else if sel == 0x08 {
            Ok(self.addi(Instruction(instruction)))
        } else if sel == 0x09 {
            Ok(self.addiu(Instruction(instruction)))
        } else if sel == 0x0a {
            Ok(self.slti(Instruction(instruction)))
        } else if sel == 0x0b {
            Ok(self.sltiu(Instruction(instruction)))
        } else if sel == 0x0c {
            Ok(self.andi(Instruction(instruction)))
        } else if sel == 0x0d {
            Ok(self.ori(Instruction(instruction)))
        } else if sel == 0x0e {
            Ok(self.xori(Instruction(instruction)))
        } else if sel == 0x0f {
            Ok(self.lui(Instruction(instruction)))
        } else {
            self.reserved(Instruction(instruction))
        }
    }

    fn execute_coprocessor(&mut self, instruction: u32) -> (r: Result<usize, CpuError>)
        requires
            old(self).wf(),
            can_run_cycles(old(self).bus, 1),
            (instruction >> 21) & 0x1f < 32,
            (instruction >> 16) & 0x1f < 32,
            (instruction >> 11) & 0x1f < 32,
        ensures
            final(self).wf(),
            coprocessor_effect(*old(self), *final(self), instruction, r),
    {
        let sel = instruction >> 26;
        if sel == 0x10 {
            self.cop0(Instruction(instruction))
        } else if sel == 0x11 {
            self.cop1(Instruction(instruction))
        } else if sel == 0x12 {
            self.cop2(Instruction(instruction))
        } else if sel == 0x13 {
            self.cop3(Instruction(instruction))
        } else if sel == 0x30 {
            self.lwc0(Instruction(instruction))
        } else if sel == 0x31 {
            self.lwc1(Instruction(instruction))
        } else if sel == 0x32 {
            self.lwc2(Instruction(instruction))
        } else if sel == 0x33 {
            self.lwc3(Instruction(instruction))
        } else if sel == 0x38 {
            self.swc0(Instruction(instruction))
        } else if sel == 0x39 {
            self.swc1(Instruction(instruction))
        } else if sel == 0x3a {
            self.swc2(Instruction(instruction))
        } else if sel == 0x3b {
            self.swc3(Instruction(instruction))
        } else {
            self.reserved(Instruction(instruction))
        }
    }

    fn execute_memory(&mut self, instruction: u32) -> (r: Result<usize, CpuError>)
        requires
            old(self).wf(),
            can_run_cycles(old(self).bus, 1),
            (instruction >> 21) & 0x1f < 32,
            (instruction >> 16) & 0x1f < 32,
            (instruction >> 11) & 0x1f < 32,
        ensures
            final(self).wf(),
            memory_effect(*old(self), *final(self), instruction, r),
    {
        let sel = instruction >> 26;
        if sel == 0x20 {
            self.lb(Instruction(instruction))
        } else if sel == 0x21 {
            self.lh(Instruction(instruction))
        } else if sel == 0x22 {
            self.lwl(Instruction(instruction))
        } else if sel == 0x23 {
            self.lw(Instruction(instruction))
        } else if sel == 0x24 {
            self.lbu(Instruction(instruction))
        } else if sel == 0x25 {
            self.lhu(Instruction(instruction))
        } else if sel == 0x26 {
            self.lwr(Instruction(instruction))
        } else if sel == 0x28 {
            self.sb(Instruction(instruction))
        } else if sel == 0x29 {
            self.sh(Instruction(instruction))
        } else if sel == 0x2a {
            self.swl(Instruction(instruction))
        } else if sel == 0x2b {
            self.sw(Instruction(instruction))
        } else if sel == 0x2e {
            self.swr(Instruction(instruction))
        } else {
            self.reserved(Instruction(instruction))
        }
    }

    /// Executes one instruction word; returns the cycles it took. Words the original
    /// processor has no handler for stop it with an error.
    pub fn decode_opcode(&mut self, instruction: u32) -> (r: Result<usize, CpuError>)
        requires
            old(self).wf(),
            can_run_cycles(old(self).bus, 1),
        ensures
            final(self).wf(),
            instruction_effect(*old(self), *final(self), instruction, r),
    {
        proof {
            lemma_and_le(instruction >> 21, 0x1f);
            lemma_and_le(instruction >> 16, 0x1f);
            lemma_and_le(instruction >> 11, 0x1f);
            reveal(instruction_effect);
        }
        let op = instruction >> 26;
        if op == 0 {
            self.execute_special(instruction)
        } else if op <= 0x0f {
            self.execute_immediate(instruction)
        } else if 0x20 <= op && op <= 0x2e {
            self.execute_memory(instruction)
        } else {
            self.execute_coprocessor(instruction)
        }
    }
}

} // verus!
