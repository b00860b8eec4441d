pub mod bus;
pub mod cop0;
pub mod instructions;

use vstd::prelude::*;
use bus::Bus;
use instructions::{Instruction, instruction_effect};
use bus::scheduler::{EventType, event_code, no_events};
use bus::dma::dma_channel_control_register::DmaChannelControlRegister;
use vstd::array::spec_array_update;
use cop0::{COP0, CauseRegister, StatusRegister};
use bus::registers::interrupt_register::InterruptRegister;
use bus::timer::{tick_effect, tick_in_range};
use crate::memory::{read32, spec_read32};
use crate::bits::lemma_and_le;

verus! {

/// The index of the return-address register `$ra`.
pub const RA_REGISTER: usize = 31;

/// The 32 general purpose registers.
#[derive(Copy, Clone)]
pub struct Registers(pub [u32; 32]);

/// The exceptions the processor raises, by their Cause register codes.
#[derive(Copy, Clone, PartialEq, Eq, Structural)]
pub enum ExceptionType {
    Interrupt,
    LoadAddressError,
    StoreAddressError,
    Syscall,
    Break,
    Overflow,
}

/// The exception code an exception writes to the Cause register.
pub open spec fn exception_code(e: ExceptionType) -> u32 {
    match e {
        ExceptionType::Interrupt => 0x0,
        ExceptionType::LoadAddressError => 0x4,
        ExceptionType::StoreAddressError => 0x5,
        ExceptionType::Syscall => 0x8,
        ExceptionType::Break => 0x9,
        ExceptionType::Overflow => 0xc,
    }
}

impl ExceptionType {
    pub fn code(&self) -> (r: u32)
        ensures
            r == exception_code(*self),
    {
        match self {
            ExceptionType::Interrupt => 0x0,
            ExceptionType::LoadAddressError => 0x4,
            ExceptionType::StoreAddressError => 0x5,
            ExceptionType::Syscall => 0x8,
            ExceptionType::Break => 0x9,
            ExceptionType::Overflow => 0xc,
        }
    }
}

/// Why the processor stopped instead of completing an instruction.
#[derive(Copy, Clone, Debug, PartialEq, Eq, Structural)]
pub enum CpuError {
    /// A reserved opcode, a coprocessor 1 or 3 instruction, or a load or store for a
    /// coprocessor other than the GTE: the instruction word.
    ReservedInstruction(u32),
    /// A COP0 operation or register the processor does not implement: the instruction word.
    Cop0(u32),
    /// A GTE (coprocessor 2) instruction: the instruction word.
    Gte(u32),
    /// A counter would leave its range during the instruction's cycles.
    CounterOverflow,
    /// A memory access at an address nothing on the bus serves: the address.
    UnmappedAddress(u32),
    /// A value the device at the address does not take (a GPU command it does not implement):
    /// the address and the value.
    UnsupportedWrite(u32, u32),
    /// The executable to side-load is too short for its header or its declared size.
    InvalidExe,
}

/// The R3000A processor and everything on its bus.
pub struct CPU {
    pub r: Registers,
    pub delayed_load: Option<(usize, u32)>,
    pub pc: u32,
    pub previous_pc: u32,
    pub next_pc: u32,
    pub hi: u32,
    pub lo: u32,
    pub bus: Bus,
    pub cop0: COP0,
    pub debug_on: bool,
    pub ignored_load_delay: Option<usize>,
    pub branch_taken: bool,
    pub in_delay_slot: bool,
    /// An executable to side-load when the BIOS reaches the shell.
    pub exe_file: Option<Vec<u8>>,
    pub should_transfer_load: bool,
}

/// The pending interrupt flag (Cause bit 10) latched from the interrupt controller.
pub open spec fn interrupts_latched(c: CPU) -> CPU {
    let pending = c.bus.interrupt_mask.bits & c.bus.interrupt_stat.bits != 0;
    let cause = c.cop0.cause.bits;
    CPU {
        cop0: COP0 {
            cause: CauseRegister { bits: if pending { cause | 0x400 } else { cause & !0x400u32 } },
            ..c.cop0
        },
        ..c
    }
}

/// The state at the start of a step: `$zero` cleared, the interrupt flag latched, the delay
/// slot state moved on and recorded in Cause.
pub open spec fn prepared(c: CPU) -> CPU {
    let c2 = interrupts_latched(c.with_reg(0, 0));
    let cause = c2.cop0.cause.bits;
    let cause2 = if c.branch_taken { cause | CauseRegister::BT } else { cause & !CauseRegister::BT };
    CPU {
        should_transfer_load: c.delayed_load is Some,
        ignored_load_delay: None,
        in_delay_slot: c.branch_taken,
        branch_taken: false,
        cop0: COP0 { cause: CauseRegister { bits: cause2 & !CauseRegister::BD }, ..c2.cop0 },
        ..c2
    }
}

/// Whether an unmasked interrupt is pending with interrupts enabled.
pub open spec fn irq_pending(c: CPU) -> bool {
    &&& ((c.cop0.sr.bits >> 8u32) as u8) & ((c.cop0.cause.bits >> 8u32) as u8) != 0
    &&& c.cop0.sr.bits & StatusRegister::IEC == StatusRegister::IEC
}

/// The end of a step: a load from the previous step lands.
pub open spec fn finished(c: CPU) -> CPU {
    let c1 = if c.should_transfer_load { c.load_transferred() } else { c };
    CPU { should_transfer_load: false, ..c1 }
}

/// The fields of a PS-X EXE header: initial pc, gp, destination, size, stack base and offset.
pub open spec fn exe_header(bytes: Seq<u8>) -> (u32, u32, u32, u32, u32, u32) {
    (
        spec_read32(bytes, 0x10),
        spec_read32(bytes, 0x14),
        spec_read32(bytes, 0x18),
        spec_read32(bytes, 0x1c),
        spec_read32(bytes, 0x30),
        spec_read32(bytes, 0x34),
    )
}

/// Whether `bytes` holds a header and the body it declares (which starts at 0x800).
pub open spec fn exe_valid(bytes: Seq<u8>) -> bool {
    bytes.len() >= 0x38 && 0x800 + exe_header(bytes).3 <= bytes.len()
}

/// RAM after the first `n` bytes of the executable's body are copied to `dest`, wrapping at
/// the end of RAM.
pub open spec fn exe_copied(ram: Seq<u8>, bytes: Seq<u8>, dest: u32, n: nat) -> Seq<u8>
    decreases n,
{
    if n == 0 {
        ram
    } else {
        exe_copied(ram, bytes, dest, (n - 1) as nat).update(
            (dest.wrapping_add((n - 1) as u32) & 0x1fffff) as int,
            bytes[0x800 + n - 1],
        )
    }
}

/// Copies the executable's body (from byte 0x800) to RAM at `dest`, wrapping at the end of
/// RAM.
fn copy_exe_body(ram: &mut Vec<u8>, bytes: &Vec<u8>, dest: u32, size: u32)
    requires
        old(ram)@.len() == 0x200000,
        0x800 + size <= bytes@.len(),
    ensures
        final(ram)@ == exe_copied(old(ram)@, bytes@, dest, size as nat),
        final(ram)@.len() == 0x200000,
{
    let ghost ram0 = ram@;
    let len = bytes.len();
    let mut i: u32 = 0;
    while i < size
        invariant
            0 <= i <= size,
            len == bytes@.len(),
            0x800 + size <= bytes@.len(),
            ram@ == exe_copied(ram0, bytes@, dest, i as nat),
            ram@.len() == 0x200000,
        decreases size - i,
    {
        let address = (dest.wrapping_add(i) & 0x1fffff) as usize;
        proof {
            lemma_and_le(dest.wrapping_add(i), 0x1fffff);
        }
        let byte = bytes[0x800 + i as usize];
        ram.set(address, byte);
        i = i + 1;
    }
}

impl CPU {
    /// The processor after side-loading the executable `bytes`, with `ram` as its RAM: pc
    /// and gp from the header, sp and fp from the stack fields when the base is not 0.
    pub open spec fn exe_state(self, bytes: Seq<u8>, ram: Vec<u8>) -> CPU {
        let (pc, gp, dest, size, sp_base, sp_offset) = exe_header(bytes);
        let c1 = (CPU {
            pc,
            next_pc: pc.wrapping_add(4),
            bus: Bus { main_ram: ram, ..self.bus },
            ..self
        }).with_reg(28, gp);
        let sp = sp_base.wrapping_add(sp_offset);
        if sp_base != 0 {
            c1.with_reg(29, sp).with_reg(30, sp)
        } else {
            c1
        }
    }
}

/// The side-load stage of a step: at the shell's entry point an executable, if there is one,
/// is loaded.
#[verifier::opaque]
pub open spec fn exe_stage(c: CPU, c2: CPU) -> bool {
    if c.pc == 0x80030000 && c.exe_file is Some {
        let bytes = c.exe_file.unwrap()@;
        &&& c2.bus.main_ram@ == exe_copied(c.bus.main_ram@, bytes, exe_header(bytes).2, exe_header(bytes).3 as nat)
        &&& c2 == c.exe_state(bytes, c2.bus.main_ram)
    } else {
        c2 == c
    }
}

/// The rest of a step once the instruction is fetched and no interrupt is taken: pc moves
/// on, the instruction executes, its cycles run and the pending load lands.
#[verifier::opaque]
pub open spec fn step_executed(c2: CPU, opcode: u32, new: CPU, r: Result<(), CpuError>) -> bool {
    let c3 = CPU { pc: c2.next_pc, next_pc: c2.next_pc.wrapping_add(4), ..c2 };
    if !can_run_cycles(c3.bus, 1) {
        r == Err::<(), CpuError>(CpuError::CounterOverflow) && new == c3
    } else {
        exists|d: CPU, res: Result<usize, CpuError>| #[trigger] instruction_effect(c3, d, opcode, res) && match res {
            Err(e) => r == Err::<(), CpuError>(e) && new == d,
            Ok(cycles) => if can_run_cycles(d.bus, cycles) {
                r is Ok && new == finished(CPU { bus: bus_after_cycles(d.bus, cycles), ..d })
            } else {
                r == Err::<(), CpuError>(CpuError::CounterOverflow) && new == d
            },
        }
    }
}

/// A step once the instruction word `opcode` is fetched: a pending interrupt is taken
/// instead (a GTE command in its slot cannot run here), otherwise the instruction runs.
#[verifier::opaque]
pub open spec fn step_fetched(c: CPU, opcode: u32, new: CPU, r: Result<(), CpuError>) -> bool {
    if irq_pending(c) {
        let e = c.exception_entered(ExceptionType::Interrupt);
        if opcode >> 25u32 == 0x25 {
            r == Err::<(), CpuError>(CpuError::Gte(opcode)) && new == e
        } else {
            r is Ok && new == finished(e)
        }
    } else {
        let c1 = CPU { previous_pc: c.pc, ..c };
        if c.pc == 0x80030000 && c.exe_file is Some && !exe_valid(c.exe_file.unwrap()@) {
            r == Err::<(), CpuError>(CpuError::InvalidExe) && new == c1
        } else {
            exists|c2: CPU| #[trigger] exe_stage(c1, c2) && step_executed(c2, opcode, new, r)
        }
    }
}

/// One step of the processor from state `c`.
pub open spec fn step_effect(c: CPU, new: CPU, r: Result<(), CpuError>) -> bool {
    let p = prepared(c);
    if p.pc & 3 != 0 {
        r is Ok && new == finished((CPU { cop0: COP0 { bad_addr: p.pc, ..p.cop0 }, ..p }).exception_entered(ExceptionType::LoadAddressError))
    } else if !p.bus.can_read32(p.pc) {
        r == Err::<(), CpuError>(CpuError::UnmappedAddress(p.pc)) && new == p
    } else {
        exists|b: Bus, opcode: u32| #[trigger] Bus::read32_effect(&p.bus, &b, bus::translate(p.pc), opcode)
            && step_fetched(CPU { bus: b, ..p }, opcode, new, r)
    }
}

/// The bus after `cycles` CPU cycles: timers 0 and 1 count, raising their interrupts, and the
/// scheduler's clock advances.
#[verifier::opaque]
pub open spec fn bus_after_cycles(b: Bus, cycles: usize) -> Bus {
    let (t0, s0) = tick_effect(b.timers[0], cycles, b.interrupt_stat.bits);
    let (t1, s1) = tick_effect(b.timers[1], cycles, s0);
    Bus {
        timers: [t0, t1, b.timers[2]],
        interrupt_stat: InterruptRegister { bits: s1 },
        scheduler: b.ticked(cycles as int),
        ..b
    }
}

/// Whether `cycles` CPU cycles keep the bus's counters in range.
pub open spec fn can_run_cycles(b: Bus, cycles: usize) -> bool {
    &&& b.scheduler.cycles + cycles <= usize::MAX
    &&& tick_in_range(b.timers[0], cycles)
    &&& tick_in_range(b.timers[1], cycles)
}

impl CPU {
    /// The invariant: pending loads name a register, the bus is consistent.
    pub open spec fn wf(&self) -> bool {
        &&& self.bus.wf()
        &&& self.delayed_load matches Some((i, _)) ==> i < 32
        &&& self.ignored_load_delay matches Some(i) ==> i < 32
    }

    pub open spec fn reg(&self, i: usize) -> u32 {
        self.r.0[i as int]
    }

    /// The processor with register `i` set to `v`.
    pub open spec fn with_reg(self, i: usize, v: u32) -> CPU {
        CPU { r: Registers(spec_array_update(self.r.0, i as int, v)), ..self }
    }

    /// An instruction's result written to register `i`: a load of `i` still in its delay
    /// slot will not overwrite it.
    pub open spec fn with_result(self, i: usize, v: u32) -> CPU {
        CPU { ignored_load_delay: Some(i), ..self.with_reg(i, v) }
    }

    /// A branch to `target` after the delay slot.
    pub open spec fn branched(self, target: u32) -> CPU {
        CPU { next_pc: target, branch_taken: true, ..self }
    }

    /// A load of `v` into register `i`, which lands after the next instruction; a pending
    /// load of another register lands now.
    pub open spec fn load_delayed(self, i: usize, v: u32) -> CPU {
        let base = match self.delayed_load {
            Some((pending, pending_value)) => if i != pending {
                self.with_reg(pending, pending_value)
            } else {
                self
            },
            None => self,
        };
        CPU { should_transfer_load: false, delayed_load: Some((i, v)), ..base }
    }

    /// The pending load lands, unless an instruction in its delay slot wrote the register.
    pub open spec fn load_transferred(self) -> CPU {
        let base = match self.delayed_load {
            Some((i, v)) => if self.ignored_load_delay == Some(i) {
                self
            } else {
                self.with_reg(i, v)
            },
            None => self,
        };
        CPU { ignored_load_delay: None, delayed_load: None, ..base }
    }

    /// The processor after entering the exception handler for `e`: the Cause register takes
    /// the code and the branch-delay flag, the status register pushes its mode stack, EPC
    /// points at the instruction to resume (one earlier in a delay slot), and execution
    /// continues at the BIOS or RAM exception vector.
    pub open spec fn exception_entered(self, e: ExceptionType) -> CPU {
        let code = exception_code(e) << 2u32;
        let cause1 = self.cop0.cause.bits | code;
        let cause2 = (cause1 & !0x7cu32) | code;
        let sr = self.cop0.sr.bits;
        let sr2 = (sr & !0x3fu32) | (((sr & 0x3f) << 2u32) & 0x3f);
        let epc0 = if e == ExceptionType::Interrupt { self.pc } else { self.previous_pc };
        let epc = if self.in_delay_slot { epc0.wrapping_sub(4) } else { epc0 };
        let cause3 = if self.in_delay_slot { cause2 | 0x8000_0000 } else { cause2 & !0x8000_0000u32 };
        let tar = if self.in_delay_slot { self.pc } else { self.cop0.tar };
        let pc: u32 = if sr2 & StatusRegister::BEV == StatusRegister::BEV { 0xbfc00180 } else { 0x80000080 };
        CPU {
            cop0: COP0 {
                cause: CauseRegister { bits: cause3 },
                sr: StatusRegister { bits: sr2 },
                epc,
                tar,
                ..self.cop0
            },
            pc,
            next_pc: (pc + 4) as u32,
            ..self
        }
    }

    /// Stores `v` in register `i`. Writing `$zero` stores too: the next step clears it.
    pub fn set_reg(&mut self, i: usize, v: u32)
        requires
            i < 32,
        ensures
            *final(self) == old(self).with_reg(i, v),
    {
        let ghost before = self.r.0;
        self.r.0[i] = v;
        assert(self.r.0 =~= spec_array_update(before, i as int, v));
    }

    fn set_result(&mut self, i: usize, v: u32)
        requires
            i < 32,
        ensures
            *final(self) == old(self).with_result(i, v),
    {
        self.set_reg(i, v);
        self.ignored_load_delay = Some(i);
    }

    fn update_load(&mut self, index: usize, value: u32)
        requires
            old(self).wf(),
            index < 32,
        ensures
            *final(self) == old(self).load_delayed(index, value),
            final(self).wf(),
    {
        if let Some((pending_index, pending_value)) = self.delayed_load {
            if index != pending_index {
                self.set_reg(pending_index, pending_value);
            }
        }
        self.should_transfer_load = false;
        self.delayed_load = Some((index, value));
    }

    fn transfer_load(&mut self)
        requires
            old(self).wf(),
        ensures
            *final(self) == old(self).load_transferred(),
            final(self).wf(),
    {
        if let Some((index, value)) = self.delayed_load {
            if let Some(ignored_load_delay) = self.ignored_load_delay {
                if ignored_load_delay != index {
                    self.set_reg(index, value);
                }
            } else {
                self.set_reg(index, value);
            }
        }
        self.ignored_load_delay = None;
        self.delayed_load = None;
    }

    pub fn enter_exception(&mut self, exception_type: ExceptionType)
        ensures
            *final(self) == old(self).exception_entered(exception_type),
    {
        let exception_cause = exception_type.code();
        self.cop0.cause.write_exception_code(exception_cause);

        let mut sr_bits = self.cop0.sr.bits();
        let mode = sr_bits & 0x3f;
        sr_bits &= !0x3f;
        sr_bits |= (mode << 2) & 0x3f;

        let mut cause_bits = self.cop0.cause.bits();
        cause_bits &= !0x7c;
        cause_bits |= exception_cause << 2;

        self.cop0.cause = CauseRegister::from_bits_retain(cause_bits);
        self.cop0.sr = StatusRegister::from_bits_retain(sr_bits);
        self.cop0.epc = match exception_type {
            ExceptionType::Interrupt => self.pc,
            _ => self.previous_pc,
        };
        if self.in_delay_slot {
            self.cop0.epc = self.cop0.epc.wrapping_sub(4);
            self.cop0.cause = CauseRegister::from_bits_retain(self.cop0.cause.bits() | 0x8000_0000);
            self.cop0.tar = self.pc;
        } else {
            self.cop0.cause = CauseRegister::from_bits_retain(self.cop0.cause.bits() & !0x8000_0000u32);
        }
        self.pc = if self.cop0.sr.contains(StatusRegister::BEV) {
            0xbfc00180
        } else {
            0x80000080
        };
        self.next_pc = self.pc + 4;
    }

    /// Runs the timers and the scheduler's clock for `cycles` CPU cycles.
    #[verifier::rlimit(40)]
    pub fn tick(&mut self, cycles: usize)
        requires
            old(self).wf(),
            can_run_cycles(old(self).bus, cycles),
        ensures
            final(self).wf(),
            *final(self) == (CPU { bus: bus_after_cycles(old(self).bus, cycles), ..*old(self) }),
    {
        proof {
            reveal(bus_after_cycles);
        }
        let mut t0 = self.bus.timers[0];
        if t0.is_active {
            t0.tick(cycles, &mut self.bus.interrupt_stat);
        }
        self.bus.set_timer(0, t0);
        let mut t1 = self.bus.timers[1];
        if t1.is_active {
            t1.tick(cycles, &mut self.bus.interrupt_stat);
        }
        self.bus.set_timer(1, t1);
        self.bus.scheduler.tick(cycles);
    }

    /// A processor at the reset vector with an empty bus; `exe_file` is an executable to
    /// side-load when the BIOS reaches its shell.
    pub fn new(exe_file: Option<Vec<u8>>) -> (r: Self)
        ensures
            r.wf(),
            r.pc == 0xbfc00000,
            r.previous_pc == 0xbfc00000,
            r.next_pc == 0xbfc00004,
            forall|i: int| 0 <= i < 32 ==> r.r.0[i] == 0,
            r.hi == 0 && r.lo == 0,
            r.delayed_load is None,
            r.ignored_load_delay is None,
            !r.branch_taken && !r.in_delay_slot && !r.should_transfer_load && !r.debug_on,
            r.exe_file == exe_file,
            r.bus.main_ram@ == Bus::new_ram(),
            r.bus.is_initial(),
            r.cop0.sr.bits == 0 && r.cop0.cause.bits == 0,
            r.cop0.dcic == 0 && r.cop0.bpc == 0 && r.cop0.bda == 0 && r.cop0.tar == 0,
            r.cop0.bdam == 0 && r.cop0.bpcm == 0 && r.cop0.epc == 0 && r.cop0.bad_addr == 0,
    {
        Self {
            r: Registers([0; 32]),
            pc: 0xbfc00000,
            previous_pc: 0xbfc00000,
            next_pc: 0xbfc00004,
            hi: 0,
            lo: 0,
            bus: Bus::new(),
            delayed_load: None,
            cop0: COP0::new(),
            debug_on: false,
            ignored_load_delay: None,
            in_delay_slot: false,
            branch_taken: false,
            exe_file,
            should_transfer_load: false,
        }
    }

    /// Latches the interrupt controller's state into Cause bit 10.
    fn handle_interrupts(&mut self)
        ensures
            *final(self) == interrupts_latched(*old(self)),
    {
        let interrupts = self.bus.interrupt_mask.bits() & self.bus.interrupt_stat.bits();
        if interrupts != 0 {
            self.cop0.cause = CauseRegister::from_bits_retain(self.cop0.cause.bits() | 0x400);
        } else {
            self.cop0.cause = CauseRegister::from_bits_retain(self.cop0.cause.bits() & !0x400u32);
        }
    }

    /// Whether an unmasked interrupt is pending with interrupts enabled.
    fn check_irqs(&self) -> (r: bool)
        ensures
            r == irq_pending(*self),
    {
        let mask = ((self.cop0.sr.bits() >> 8) as u8) & ((self.cop0.cause.bits() >> 8) as u8);
        mask != 0 && self.cop0.sr.contains(StatusRegister::IEC)
    }

    /// Side-loads a PS-X EXE: sets pc, gp and (when the header gives a stack) sp and fp, and
    /// copies the body to RAM. An executable shorter than its header or its declared size is
    /// refused and nothing changes.
    #[verifier::rlimit(40)]
    pub fn load_exe(&mut self, bytes: &Vec<u8>) -> (r: Result<(), CpuError>)
        requires
            old(self).wf(),
        ensures
            final(self).wf(),
            exe_valid(bytes@) ==> {
                &&& r is Ok
                &&& final(self).bus.main_ram@ == exe_copied(old(self).bus.main_ram@, bytes@, exe_header(bytes@).2, exe_header(bytes@).3 as nat)
                &&& *final(self) == old(self).exe_state(bytes@, final(self).bus.main_ram)
            },
            !exe_valid(bytes@) ==> r == Err::<(), CpuError>(CpuError::InvalidExe) && *final(self) == *old(self),
    {
        if bytes.len() < 0x38 || bytes.len() < 0x800 {
            return Err(CpuError::InvalidExe);
        }
        let file_size = read32(bytes, 0x1c);
        if bytes.len() - 0x800 < file_size as usize {
            return Err(CpuError::InvalidExe);
        }
        self.pc = read32(bytes, 0x10);
        self.next_pc = self.pc.wrapping_add(4);
        self.set_reg(28, read32(bytes, 0x14));
        let file_dest = read32(bytes, 0x18);
        let sp_base = read32(bytes, 0x30);
        if sp_base != 0 {
            let sp_offset = read32(bytes, 0x34);
            self.set_reg(29, sp_base.wrapping_add(sp_offset));
            self.set_reg(30, sp_base.wrapping_add(sp_offset));
        }
        copy_exe_body(&mut self.bus.main_ram, bytes, file_dest, file_size);
        Ok(())
    }

    /// Clears `$zero`, latches interrupts and moves the delay slot state on.
    fn prepare(&mut self)
        requires
            old(self).wf(),
        ensures
            final(self).wf(),
            *final(self) == prepared(*old(self)),
    {
        self.set_reg(0, 0);
        self.handle_interrupts();
        self.should_transfer_load = self.delayed_load.is_some();
        self.ignored_load_delay = None;
        self.in_delay_slot = self.branch_taken;
        self.cop0.cause.set(CauseRegister::BT, self.in_delay_slot);
        self.branch_taken = false;
        self.cop0.cause.remove(CauseRegister::BD);
    }

    /// Lands the pending load if the step began with one.
    fn finish(&mut self)
        requires
            old(self).wf(),
        ensures
            final(self).wf(),
            *final(self) == finished(*old(self)),
    {
        if self.should_transfer_load {
            self.transfer_load();
        }
        self.should_transfer_load = false;
    }

    /// Moves pc on, executes `opcode` and runs its cycles.
    #[verifier::rlimit(40)]
    fn execute(&mut self, opcode: u32) -> (r: Result<(), CpuError>)
        requires
            old(self).wf(),
        ensures
            final(self).wf(),
            step_executed(*old(self), opcode, *final(self), r),
    {
        let ghost c2 = *self;
        self.pc = self.next_pc;
        self.next_pc = self.next_pc.wrapping_add(4);
        let ghost c3 = *self;
        assert(c3 == CPU { pc: c2.next_pc, next_pc: c2.next_pc.wrapping_add(4), ..c2 });
        if !self.bus.can_run(1) {
            proof {
                reveal(step_executed);
            }
            return Err(CpuError::CounterOverflow);
        }
        let res = self.decode_opcode(opcode);
        let ghost d = *self;
        match res {
            Err(e) => {
                proof {
                    reveal(step_executed);
                    assert(instruction_effect(c3, d, opcode, res));
                }
                Err(e)
            },
            Ok(cycles) => {
                if !self.bus.can_run(cycles) {
                    proof {
                        reveal(step_executed);
                        assert(instruction_effect(c3, d, opcode, res));
                    }
                    return Err(CpuError::CounterOverflow);
                }
                self.tick(cycles);
                let ghost ticked = *self;
                assert(ticked == CPU { bus: bus_after_cycles(d.bus, cycles), ..d });
                self.finish();
                proof {
                    reveal(step_executed);
                    assert(instruction_effect(c3, d, opcode, res));
                }
                Ok(())
            },
        }
    }

    /// At the shell's entry point, loads the executable to side-load, if there is one.
    #[verifier::rlimit(40)]
    fn side_load(&mut self) -> (r: Result<(), CpuError>)
        requires
            old(self).wf(),
        ensures
            final(self).wf(),
            old(self).pc == 0x80030000 && old(self).exe_file is Some && !exe_valid(old(self).exe_file.unwrap()@) ==> r == Err::<(), CpuError>(CpuError::InvalidExe) && *final(self) == *old(self),
            !(old(self).pc == 0x80030000 && old(self).exe_file is Some && !exe_valid(old(self).exe_file.unwrap()@)) ==> r is Ok && exe_stage(*old(self), *final(self)),
    {
        if self.pc != 0x80030000 || self.exe_file.is_none() {
            proof {
                reveal(exe_stage);
            }
            return Ok(());
        }
        let ghost before = *self;
        let bytes = self.exe_file.take().unwrap();
        let ghost taken = *self;
        assert(taken == CPU { exe_file: None, ..before });
        let loaded = self.load_exe(&bytes);
        let ghost after = *self;
        self.exe_file = Some(bytes);
        assert(*self == CPU { exe_file: before.exe_file, ..after });
        proof {
            reveal(exe_stage);
            if exe_valid(bytes@) {
                assert(*self == before.exe_state(bytes@, self.bus.main_ram));
            } else {
                assert(after == taken);
                assert(*self == before);
            }
        }
        loaded
    }

    /// The part of a step after the instruction word `opcode` is fetched.
    fn run_fetched(&mut self, opcode: u32) -> (r: Result<(), CpuError>)
        requires
            old(self).wf(),
        ensures
            final(self).wf(),
            step_fetched(*old(self), opcode, *final(self), r),
    {
        proof {
            reveal(step_fetched);
        }
        let ghost c = *self;
        if self.check_irqs() {
            self.enter_exception(ExceptionType::Interrupt);
            if (opcode >> 25) == 0x25 {
                return Err(CpuError::Gte(opcode));
            }
            self.finish();
            return Ok(());
        }
        self.previous_pc = self.pc;
        let ghost c1 = *self;
        match self.side_load() {
            Ok(()) => {},
            Err(e) => {
                return Err(e);
            },
        }
        let ghost c2 = *self;
        assert(exe_stage(c1, c2));
        let r = self.execute(opcode);
        assert(step_fetched(c, opcode, *self, r));
        r
    }

    /// Runs one instruction, or takes a pending interrupt or an address error instead. Stops
    /// with an error where the instruction cannot run here.
    pub fn step(&mut self) -> (r: Result<(), CpuError>)
        requires
            old(self).wf(),
        ensures
            final(self).wf(),
            step_effect(*old(self), *final(self), r),
    {
        self.prepare();
        if self.pc & 0x3 != 0 {
            self.cop0.bad_addr = self.pc;
            self.enter_exception(ExceptionType::LoadAddressError);
            self.finish();
            return Ok(());
        }
        if !self.bus.check_read32(self.pc) {
            return Err(CpuError::UnmappedAddress(self.pc));
        }
        let ghost p = *self;
        let opcode = self.bus.mem_read32(self.pc);
        assert(Bus::read32_effect(&p.bus, &self.bus, bus::translate(p.pc), opcode));
        self.run_fetched(opcode)
    }

    /// Takes the next due event. A finished DMA transfer is handled here (its channel's
    /// start bits clear and its interrupt is raised if enabled); any other event is returned
    /// for the owner of its device, with how many cycles late it is.
    pub fn handle_events(&mut self) -> (r: Option<(EventType, usize)>)
        requires
            old(self).wf(),
            old(self).bus.scheduler.events() != no_events(),
        ensures
            final(self).wf(),
            final(self).bus.scheduler.cycles == old(self).bus.scheduler.cycles,
            r matches Some((e, late)) ==> {
                let ev = old(self).bus.scheduler.events();
                let code = event_code(e);
                &&& !(e matches EventType::DmaFinished(c) && c < 7)
                &&& ev.contains_key(code)
                &&& old(self).bus.scheduler.is_earliest(ev[code])
                &&& ev[code] <= old(self).bus.scheduler.cycles
                &&& late == old(self).bus.scheduler.cycles - ev[code]
                &&& final(self).bus.scheduler.events() == ev.remove(code)
                &&& *final(self) == (CPU { bus: Bus { scheduler: final(self).bus.scheduler, ..old(self).bus }, ..*old(self) })
            },
            r is None ==> (*final(self) == (CPU { bus: Bus { scheduler: final(self).bus.scheduler, ..old(self).bus }, ..*old(self) })
                && final(self).bus.scheduler.events() == old(self).bus.scheduler.events() && forall|k: u128| #[trigger]
                old(self).bus.scheduler.events().contains_key(k) ==> old(self).bus.scheduler.cycles
                < old(self).bus.scheduler.events()[k]) || exists|c: usize| {
                let ev = old(self).bus.scheduler.events();
                let code = #[trigger] event_code(EventType::DmaFinished(c));
                &&& c < 7
                &&& ev.contains_key(code)
                &&& old(self).bus.scheduler.is_earliest(ev[code])
                &&& ev[code] <= old(self).bus.scheduler.cycles
                &&& final(self).bus.scheduler.events() == ev.remove(code)
                &&& final(self).bus.dma.channels@[c as int].control.bits == old(self).bus.dma.channels@[c as int].control.bits
                    & !(DmaChannelControlRegister::START_TRANSFER | DmaChannelControlRegister::FORCE_TRANSFER)
            },
    {
        let ghost before = *self;
        match self.bus.scheduler.get_next_event() {
            None => None,
            Some((event, cycles_left)) => {
                match event {
                    EventType::DmaFinished(channel) => {
                        if channel < 7 {
                            self.bus.dma.finish_transfer(channel, &mut self.bus.interrupt_stat);
                            assert(event_code(EventType::DmaFinished(channel)) == event_code(event));
                            None
                        } else {
                            Some((event, cycles_left))
                        }
                    },
                    _ => Some((event, cycles_left)),
                }
            },
        }
    }
}


/// Every step starts with `$zero` reading 0.
pub proof fn lemma_zero_register_cleared(c: CPU)
    ensures
        prepared(c).reg(0) == 0,
{
}

/// Returning from an exception restores the interrupt-enable and mode bits the exception
/// saved: the low four bits of the status register are those before the exception.
pub proof fn lemma_rfe_undoes_exception(c: CPU, e: ExceptionType)
    ensures
        c.exception_entered(e).cop0.returned_from_exception().sr.bits & 0xf == c.cop0.sr.bits & 0xf,
{
    let sr = c.cop0.sr.bits;
    let sr2 = (sr & !0x3fu32) | (((sr & 0x3f) << 2u32) & 0x3f);
    assert(((sr2 & !0xfu32) | ((sr2 >> 2u32) & 0x3) | (((sr2 >> 4u32) & 0x3) << 2u32)) & 0xf == sr & 0xf) by (bit_vector)
        requires sr2 == (sr & !0x3fu32) | (((sr & 0x3f) << 2u32) & 0x3f);
}

} // verus!
