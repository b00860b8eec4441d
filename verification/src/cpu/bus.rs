pub mod cdrom;
pub mod dma;
pub mod gpu;
pub mod mdec;
pub mod peripherals;
pub mod registers;
pub mod scheduler;
pub mod spu;
pub mod timer;

use vstd::prelude::*;
use dma::dma_channel::{Dma, write_registers_effect, write_starts_transfer, address_channel};
use gpu::{GPU, TransferType, gp0_effect, gp0_supported, gp1_effect, gp1_supported, read_gpu_effect, spec_read_stat};
use registers::delay_register::DelayRegister;
use registers::interrupt_register::InterruptRegister;
use scheduler::{Scheduler, EventType, event_code};
use spu::{SPU, SPU_CYCLES};
use peripherals::Peripherals;
use timer::{Timer, mode_written};
use crate::bits::lemma_and_le;
use crate::memory::{lemma_read32_after_write32, lemma_read16_after_write16, read32, read16, write32, write16, spec_read32, spec_read16, spec_write32, spec_write16};

verus! {

/// The size of main RAM in bytes.
pub const RAM_SIZE: usize = 0x200000;

/// The size of the scratchpad in bytes.
pub const SCRATCHPAD_SIZE: usize = 0x400;

/// The physical address a CPU address maps to: KSEG0 and KSEG1 drop their segment bits,
/// KSEG2 is left as it is, everything else keeps its low 29 bits.
pub open spec fn translate(address: u32) -> usize {
    if address >> 28u32 == 0x8 || address >> 28u32 == 0xa {
        (address & 0xfffffff) as usize
    } else if address >> 28u32 == 0xf {
        address as usize
    } else {
        (address & 0x1fffffff) as usize
    }
}

/// Whether `n` bytes from physical address `a` lie in main RAM.
pub open spec fn in_ram(a: usize, n: int) -> bool {
    a + n <= RAM_SIZE
}

/// Whether physical address `a` lies in the scratchpad, with `n` bytes from it.
pub open spec fn in_scratchpad(a: usize, n: int) -> bool {
    0x1f800000 <= a && a - 0x1f800000 + n <= SCRATCHPAD_SIZE
}

/// The memory bus: RAM, BIOS, scratchpad, memory control registers and the devices.
pub struct Bus {
    pub bios: Vec<u8>,
    pub bios_delay: DelayRegister,
    pub ram_size: u32,
    pub com_delay: u32,
    pub exp1_base_address: u32,
    pub exp2_base_address: u32,
    pub exp2_enabled: bool,
    pub exp1_delay: DelayRegister,
    pub spu_delay: DelayRegister,
    pub cdrom_delay: DelayRegister,
    pub exp3_delay: DelayRegister,
    pub exp2_delay: DelayRegister,
    pub cache_config: u32,
    pub main_ram: Vec<u8>,
    pub scratchpad: Vec<u8>,
    pub spu: SPU,
    pub peripherals: Peripherals,
    pub exp1_post: u8,
    pub interrupt_mask: InterruptRegister,
    pub interrupt_stat: InterruptRegister,
    pub timers: [Timer; 3],
    pub scheduler: Scheduler,
    pub gpu: GPU,
    pub dma: Dma,
    /// The DMA channel whose transfer a register write started, for the owner of the device
    /// to run.
    pub dma_started: Option<usize>,
}

impl Bus {
    /// The invariant: RAM and scratchpad have their sizes, each timer knows its number, the
    /// DMA controller and the scheduler are consistent.
    pub open spec fn wf(&self) -> bool {
        &&& self.main_ram@.len() == RAM_SIZE
        &&& self.scratchpad@.len() == SCRATCHPAD_SIZE
        &&& self.timers[0].timer_id == 0
        &&& self.timers[1].timer_id == 1
        &&& self.timers[2].timer_id == 2
        &&& self.dma.wf()
        &&& self.scheduler.wf()
        &&& self.spu.wf()
        &&& self.peripherals.wf()
    }

    /// Whether physical address `a` lies in the BIOS, with `n` bytes from it.
    pub open spec fn in_bios(&self, a: usize, n: int) -> bool {
        0x1fc00000 <= a <= 0x1fc80000 && a - 0x1fc00000 + n <= self.bios@.len()
    }

    /// The scheduler after `n` cycles of bus access.
    pub open spec fn ticked(&self, n: int) -> Scheduler {
        Scheduler { cycles: (self.scheduler.cycles + n) as usize, ..self.scheduler }
    }

    /// Zeroed RAM.
    pub open spec fn new_ram() -> Seq<u8> {
        Seq::new(RAM_SIZE as nat, |i: int| 0u8)
    }

    /// The state of the bus at power-on: zeroed memory and registers, no BIOS, the devices
    /// in their reset states and the first sound sample scheduled.
    pub open spec fn is_initial(&self) -> bool {
        &&& self.initial_memory()
        &&& self.initial_devices()
    }

    /// Memory, memory control, interrupt controller and scheduler at power-on.
    pub open spec fn initial_memory(&self) -> bool {
        &&& self.wf()
        &&& self.gpu.wf()
        &&& self.bios@.len() == 0
        &&& self.main_ram@ == Bus::new_ram()
        &&& forall|i: int| 0 <= i < SCRATCHPAD_SIZE ==> self.scratchpad@[i] == 0
        &&& self.interrupt_mask.bits == 0 && self.interrupt_stat.bits == 0
        &&& self.cache_config == 0 && self.ram_size == 0 && self.com_delay == 0
        &&& self.exp1_base_address == 0 && self.exp2_base_address == 0 && self.exp2_enabled
        &&& self.exp1_post == 0
        &&& self.bios_delay.spec_read() == 0 && self.exp1_delay.spec_read() == 0
        &&& self.exp2_delay.spec_read() == 0 && self.exp3_delay.spec_read() == 0
        &&& self.spu_delay.spec_read() == 0 && self.cdrom_delay.spec_read() == 0
        &&& self.scheduler.cycles == 0
        &&& self.scheduler.events() == scheduler::no_events().insert(event_code(EventType::TickSpu), SPU_CYCLES)
    }

    /// The timers, GPU, DMA controller, SPU and serial port at power-on.
    pub open spec fn initial_devices(&self) -> bool {
        &&& self.dma_started is None
        &&& self.timers[0].counter == 0 && self.timers[0].counter_register.bits == 0 && self.timers[0].counter_target == 0
        &&& self.timers[1].counter == 0 && self.timers[1].counter_register.bits == 0 && self.timers[1].counter_target == 0
        &&& self.timers[2].counter == 0 && self.timers[2].counter_register.bits == 0 && self.timers[2].counter_target == 0
        &&& self.timers[0].is_active && self.timers[1].is_active && self.timers[2].is_active
        &&& self.gpu.display == gpu::initial_display()
        &&& self.gpu.env == gpu::initial_environment()
        &&& self.gpu.primitive == gpu::initial_primitive()
        &&& self.gpu.transfer == gpu::initial_transfer()
        &&& self.gpu.current_command_buffer@.len() == 0 && self.gpu.words_left == 0
        &&& self.dma.dma_control.bits == 0x7654321
        &&& forall|i: int| 0 <= i < 7 ==> #[trigger] self.dma.channels@[i].control.bits == 0
        &&& self.spu.spucnt.bits == 0 && self.spu.spustat.bits == 0
        &&& self.spu.keyon == 0 && self.spu.keyoff == 0
        &&& self.spu.sample_fifo@.len() == 0
        &&& self.peripherals.ctrl.bits == 0 && self.peripherals.tx_fifo@.len() == 0
        &&& self.peripherals.rx_fifo@.len() == 0
    }

    #[verifier::rlimit(60)]
    pub fn new() -> (r: Self)
        ensures
            r.wf(),
            r.gpu.wf(),
            r.bios@.len() == 0,
            r.main_ram@ == Bus::new_ram(),
            forall|i: int| 0 <= i < SCRATCHPAD_SIZE ==> r.scratchpad@[i] == 0,
            r.interrupt_mask.bits == 0,
            r.interrupt_stat.bits == 0,
            r.cache_config == 0,
            r.scheduler.cycles == 0,
            r.scheduler.events() == scheduler::no_events().insert(event_code(EventType::TickSpu), SPU_CYCLES),
            r.exp2_enabled,
            r.dma_started is None,
            r.is_initial(),
    {
        let mut scheduler = Scheduler::new();
        let spu = SPU::new(&mut scheduler);
        proof {
            lemma_and_le(0, 0x7ff);
        }
        let r = Self {
            bios: Vec::new(),
            bios_delay: DelayRegister::new(),
            ram_size: 0,
            com_delay: 0,
            exp1_base_address: 0,
            exp2_base_address: 0,
            exp2_enabled: true,
            exp1_delay: DelayRegister::new(),
            spu_delay: DelayRegister::new(),
            cdrom_delay: DelayRegister::new(),
            exp3_delay: DelayRegister::new(),
            exp2_delay: DelayRegister::new(),
            cache_config: 0,
            main_ram: vec![0u8; RAM_SIZE],
            scratchpad: vec![0u8; SCRATCHPAD_SIZE],
            spu,
            peripherals: Peripherals::new(),
            exp1_post: 0,
            interrupt_mask: InterruptRegister::from_bits_truncate(0),
            interrupt_stat: InterruptRegister::from_bits_truncate(0),
            timers: [Timer::new(0), Timer::new(1), Timer::new(2)],
            scheduler,
            gpu: GPU::new(),
            dma: Dma::new(),
            dma_started: None,
        };
        assert(r.gpu.display == gpu::initial_display());
        assert(r.gpu.env == gpu::initial_environment());
        assert(r.gpu.primitive == gpu::initial_primitive());
        assert(r.gpu.transfer == gpu::initial_transfer());
        assert(r.spu.spucnt.bits == 0 && r.spu.spustat.bits == 0);
        assert(r.peripherals.ctrl.bits == 0);
        assert(r.dma.dma_control.bits == 0x7654321);
        assert(r.bios_delay.spec_read() == 0);
        assert(r.timers[0].counter == 0 && r.timers[0].is_active);
        assert(r.wf());
        assert(r.gpu.wf());
        assert(r.bios@.len() == 0);
        assert(r.main_ram@ == Bus::new_ram());
        assert(forall|i: int| 0 <= i < SCRATCHPAD_SIZE ==> r.scratchpad@[i] == 0);
        assert(r.interrupt_mask.bits == 0 && r.interrupt_stat.bits == 0);
        assert(r.cache_config == 0 && r.ram_size == 0 && r.com_delay == 0);
        assert(r.exp1_base_address == 0 && r.exp2_base_address == 0 && r.exp2_enabled);
        assert(r.exp1_post == 0);
        assert(r.exp1_delay.spec_read() == 0 && r.exp2_delay.spec_read() == 0);
        assert(r.exp3_delay.spec_read() == 0 && r.spu_delay.spec_read() == 0);
        assert(r.cdrom_delay.spec_read() == 0);
        assert(r.scheduler.cycles == 0);
        assert(r.scheduler.events() == scheduler::no_events().insert(event_code(EventType::TickSpu), SPU_CYCLES));
        assert(r.initial_memory());
        assert(r.initial_devices());
        r
    }

    pub fn translate_address(address: u32) -> (r: usize)
        ensures
            r == translate(address),
    {
        let segment = address >> 28;
        if segment == 0x8 || segment == 0xa {
            (address & 0xfffffff) as usize
        } else if segment == 0xf {
            address as usize
        } else {
            (address & 0x1fffffff) as usize
        }
    }

    pub fn load_bios(&mut self, bios: Vec<u8>)
        ensures
            *final(self) == (Bus { bios, ..*old(self) }),
    {
        self.bios = bios;
    }

    // ----- 32-bit reads -----

    /// Whether a 32-bit read of `address` reaches something.
    pub open spec fn can_read32(&self, address: u32) -> bool {
        let a = translate(address);
        &&& self.scheduler.cycles + 5 <= usize::MAX
        &&& {
            ||| a <= 0x1fffff && in_ram(a, 4)
            ||| a <= 0x1f8003ff && in_scratchpad(a, 4)
            ||| a == 0x1f801014 || a == 0x1f801060 || a == 0x1f801070 || a == 0x1f801074
            ||| 0x1f801080 <= a <= 0x1f8010f4 && self.dma.can_read(a)
            ||| a == 0x1f801110 || a == 0x1f801810 || a == 0x1f801814
            ||| self.in_bios(a, 4)
        }
    }

    /// The cycles a 32-bit read of physical address `a` costs.
    pub open spec fn read32_ticks(&self, a: usize) -> int {
        if 0x1f801080 <= a <= 0x1f8010f4 || a == 0x1f801810 || a == 0x1f801814 {
            5
        } else if 0x1fc00000 <= a <= 0x1fc80000 && (self.cache_config >> 11u32) & 1 == 0 {
            4
        } else {
            0
        }
    }

    /// The value a 32-bit read of physical address `a` gives, but for GPUREAD.
    pub open spec fn spec_read32(&self, a: usize) -> u32 {
        if a <= 0x1fffff {
            spec_read32(self.main_ram@, a as int)
        } else if 0x1f800000 <= a <= 0x1f8003ff {
            spec_read32(self.scratchpad@, a - 0x1f800000)
        } else if a == 0x1f801014 {
            self.spu_delay.spec_read()
        } else if a == 0x1f801060 {
            self.ram_size
        } else if a == 0x1f801070 {
            self.interrupt_stat.bits
        } else if a == 0x1f801074 {
            self.interrupt_mask.bits
        } else if 0x1f801080 <= a <= 0x1f8010f4 {
            self.dma.spec_read_register(a)
        } else if a == 0x1f801110 {
            self.timers[1].counter
        } else if a == 0x1f801814 {
            spec_read_stat(&self.gpu)
        } else {
            spec_read32(self.bios@, a - 0x1fc00000)
        }
    }

    /// What a 32-bit read of physical address `a` that returns `r` does: GPUREAD takes from
    /// the GPU, everything else gives `spec_read32`; the access costs its cycles.
    pub open spec fn read32_effect(old: &Bus, new: &Bus, a: usize, r: u32) -> bool {
        &&& *new == Bus { gpu: new.gpu, scheduler: old.ticked(old.read32_ticks(a)), ..*old }
        &&& a == 0x1f801810 ==> read_gpu_effect(&old.gpu, &new.gpu, r)
        &&& a != 0x1f801810 ==> r == old.spec_read32(a) && new.gpu == old.gpu
    }

    /// What a 16-bit read of physical address `a` that returns `r` does.
    pub open spec fn read16_effect(old: &Bus, new: &Bus, a: usize, r: u32) -> bool {
        &&& r == old.spec_read16(a)
        &&& *new == Bus { scheduler: old.ticked(old.read16_ticks(a)), ..*old }
    }

    /// What an 8-bit read of physical address `a` that returns `r` does.
    pub open spec fn read8_effect(old: &Bus, new: &Bus, a: usize, r: u32) -> bool {
        if a == 0x1f801040 {
            &&& r == old.spec_read8(a)
            &&& old.peripherals.byte_read(&new.peripherals, r as u8)
            &&& new.peripherals.wf()
            &&& *new == Bus { peripherals: new.peripherals, ..*old }
        } else {
            &&& r == old.spec_read8(a)
            &&& *new == Bus { scheduler: old.ticked(old.read8_ticks(a)), ..*old }
        }
    }

    pub fn mem_read32(&mut self, address: u32) -> (r: u32)
        requires
            old(self).wf(),
            old(self).can_read32(address),
        ensures
            final(self).wf(),
            Bus::read32_effect(old(self), final(self), translate(address), r),
    {
        let a = Self::translate_address(address);
        if a <= 0x1fffff {
            read32(&self.main_ram, a)
        } else if 0x1f800000 <= a && a <= 0x1f8003ff {
            read32(&self.scratchpad, a - 0x1f800000)
        } else if a == 0x1f801014 {
            self.spu_delay.read()
        } else if a == 0x1f801060 {
            self.ram_size
        } else if a == 0x1f801070 {
            self.interrupt_stat.bits()
        } else if a == 0x1f801074 {
            self.interrupt_mask.bits()
        } else if 0x1f801080 <= a && a <= 0x1f8010f4 {
            self.scheduler.tick(5);
            self.dma.read_registers(a)
        } else if a == 0x1f801110 {
            self.timers[1].counter
        } else if a == 0x1f801810 {
            self.scheduler.tick(5);
            self.gpu.read_gpu()
        } else if a == 0x1f801814 {
            self.scheduler.tick(5);
            self.gpu.read_stat()
        } else {
            if (self.cache_config >> 11) & 1 == 0 {
                self.scheduler.tick(4);
            }
            read32(&self.bios, a - 0x1fc00000)
        }
    }

    // ----- 16-bit reads -----

    /// Whether a 16-bit read of `address` reaches something.
    pub open spec fn can_read16(&self, address: u32) -> bool {
        let a = translate(address);
        &&& self.scheduler.cycles + 5 <= usize::MAX
        &&& {
            ||| a <= 0x1fffff && in_ram(a, 2)
            ||| a <= 0x1f8003ff && in_scratchpad(a, 2)
            ||| a == 0x1f801070 || a == 0x1f801072 || a == 0x1f801074 || a == 0x1f801076
            ||| a == 0x1f801120
            ||| a == 0x1f801044 || a == 0x1f80104a
            ||| spu::is_readable(a)
        }
    }

    /// The cycles a 16-bit read of physical address `a` costs.
    pub open spec fn read16_ticks(&self, a: usize) -> int {
        if a == 0x1f801070 || a == 0x1f801072 || a == 0x1f801074 || a == 0x1f801076
            || 0x1f801c00 <= a <= 0x1f801e7f {
            5
        } else {
            0
        }
    }

    /// The value a 16-bit read of physical address `a` gives.
    pub open spec fn spec_read16(&self, a: usize) -> u32 {
        if a <= 0x1fffff {
            spec_read16(self.main_ram@, a as int) as u32
        } else if 0x1f800000 <= a <= 0x1f8003ff {
            spec_read16(self.scratchpad@, a - 0x1f800000) as u32
        } else if a == 0x1f801070 {
            self.interrupt_stat.bits & 0xffff
        } else if a == 0x1f801072 {
            (self.interrupt_stat.bits >> 16u32) & 0xffff
        } else if a == 0x1f801074 {
            self.interrupt_mask.bits & 0xffff
        } else if a == 0x1f801076 {
            self.interrupt_mask.bits >> 16u32
        } else if a == 0x1f801120 {
            self.timers[2].counter
        } else if a == 0x1f801044 {
            self.peripherals.stat_bits() as u32
        } else if a == 0x1f80104a {
            self.peripherals.ctrl.bits as u32
        } else {
            self.spu.register_value(a) as u32
        }
    }

    pub fn mem_read16(&mut self, address: u32) -> (r: u32)
        requires
            old(self).wf(),
            old(self).can_read16(address),
        ensures
            final(self).wf(),
            Bus::read16_effect(old(self), final(self), translate(address), r),
    {
        let a = Self::translate_address(address);
        if a <= 0x1fffff {
            read16(&self.main_ram, a) as u32
        } else if 0x1f800000 <= a && a <= 0x1f8003ff {
            read16(&self.scratchpad, a - 0x1f800000) as u32
        } else if a == 0x1f801070 {
            self.scheduler.tick(5);
            self.interrupt_stat.bits() & 0xffff
        } else if a == 0x1f801072 {
            self.scheduler.tick(5);
            (self.interrupt_stat.bits() >> 16) & 0xffff
        } else if a == 0x1f801074 {
            self.scheduler.tick(5);
            self.interrupt_mask.bits() & 0xffff
        } else if a == 0x1f801076 {
            self.scheduler.tick(5);
            self.interrupt_mask.bits() >> 16
        } else if a == 0x1f801120 {
            self.timers[2].counter
        } else if a == 0x1f801044 {
            self.peripherals.read_stat() as u32
        } else if a == 0x1f80104a {
            self.peripherals.read_ctrl() as u32
        } else {
            self.scheduler.tick(5);
            self.spu.read16(a) as u32
        }
    }

    // ----- 8-bit reads -----

    /// Whether an 8-bit read of `address` reaches something.
    pub open spec fn can_read8(&self, address: u32) -> bool {
        let a = translate(address);
        &&& self.scheduler.cycles + 4 <= usize::MAX
        &&& {
            ||| a <= 0x1fffff
            ||| a <= 0x1f8003ff && in_scratchpad(a, 1)
            ||| 0x1f000000 <= a <= 0x1f02ffff
            ||| self.in_bios(a, 1)
            ||| a == 0x1f801040
        }
    }

    /// The cycles an 8-bit read of physical address `a` costs.
    pub open spec fn read8_ticks(&self, a: usize) -> int {
        if 0x1fc00000 <= a <= 0x1fc80000 && (self.cache_config >> 1u32) & 1 == 0 {
            4
        } else {
            0
        }
    }

    /// The value an 8-bit read of physical address `a` gives; the expansion 1 area reads 0.
    pub open spec fn spec_read8(&self, a: usize) -> u32 {
        if a <= 0x1fffff {
            self.main_ram@[a as int] as u32
        } else if 0x1f800000 <= a <= 0x1f8003ff {
            self.scratchpad@[a - 0x1f800000] as u32
        } else if 0x1f000000 <= a <= 0x1f02ffff {
            0
        } else if a == 0x1f801040 {
            if self.peripherals.rx_fifo@.len() > 0 { self.peripherals.rx_fifo@[0] as u32 } else { 0 }
        } else {
            self.bios@[a - 0x1fc00000] as u32
        }
    }

    pub fn mem_read8(&mut self, address: u32) -> (r: u32)
        requires
            old(self).wf(),
            old(self).can_read8(address),
        ensures
            final(self).wf(),
            Bus::read8_effect(old(self), final(self), translate(address), r),
    {
        let a = Self::translate_address(address);
        if a <= 0x1fffff {
            self.main_ram[a] as u32
        } else if 0x1f800000 <= a && a <= 0x1f8003ff {
            self.scratchpad[a - 0x1f800000] as u32
        } else if 0x1f000000 <= a && a <= 0x1f02ffff {
            0
        } else if a == 0x1f801040 {
            self.peripherals.read_byte() as u32
        } else {
            if (self.cache_config >> 1) & 1 == 0 {
                self.scheduler.tick(4);
            }
            self.bios[a - 0x1fc00000] as u32
        }
    }

    // ----- writes -----

    /// Whether the GPU takes `word` on GP0 now: its FIFO is consistent and a word that
    /// starts a command names a command it implements.
    pub open spec fn gp0_accepts(&self, word: u32) -> bool {
        &&& self.gpu.fifo_wf()
        &&& self.gpu.transfer.transfer_type != Some(TransferType::ToVram) && !self.gpu.primitive.is_polyline
            && self.gpu.words_left == 0 ==> gp0_supported(word)
    }

    /// The cycles a 16- or 32-bit write to physical address `a` costs.
    pub open spec fn write_ticks(a: usize) -> int {
        if 0x1f801000 <= a <= 0x1f802000 {
            5
        } else {
            0
        }
    }

    /// Whether a 32-bit write of `value` to `address` reaches something that takes it.
    pub open spec fn can_write32(&self, address: u32, value: u32) -> bool {
        let a = translate(address);
        &&& self.scheduler.cycles + 5 <= usize::MAX
        &&& {
            ||| a <= 0x1fffff && in_ram(a, 4)
            ||| a <= 0x1f8003ff && in_scratchpad(a, 4)
            ||| a == 0x1f801000 || a == 0x1f801004 || a == 0x1f801008 || a == 0x1f80100c
            ||| a == 0x1f801010 || a == 0x1f801014 || a == 0x1f801018 || a == 0x1f80101c
            ||| a == 0x1f801020 || a == 0x1f801060 || a == 0x1f801070 || a == 0x1f801074
            ||| 0x1f801080 <= a <= 0x1f8010f4 && Dma::can_write(a)
            ||| a == 0x1f801114 || a == 0x1f801118
            ||| a == 0x1f801810 && self.gp0_accepts(value)
            ||| a == 0x1f801814 && gp1_supported(value)
            ||| a == 0xfffe0130
        }
    }

    /// What a 32-bit write of `value` to physical address `a` does. A write that starts a
    /// DMA transfer records its channel in `dma_started`.
    pub open spec fn write32_effect(old: &Bus, new: &Bus, a: usize, value: u32) -> bool {
        let s = old.ticked(Bus::write_ticks(a));
        if a <= 0x1fffff {
            &&& new.main_ram@ =~= spec_write32(old.main_ram@, a as int, value)
            &&& *new == Bus { main_ram: new.main_ram, scheduler: s, ..*old }
        } else if 0x1f800000 <= a <= 0x1f8003ff {
            &&& new.scratchpad@ =~= spec_write32(old.scratchpad@, a - 0x1f800000, value)
            &&& *new == Bus { scratchpad: new.scratchpad, scheduler: s, ..*old }
        } else if 0x1f801080 <= a <= 0x1f8010f4 {
            &&& write_registers_effect(&old.dma, &new.dma, a, value, write_starts_transfer(&old.dma, a, value))
            &&& new.dma_started == if write_starts_transfer(&old.dma, a, value) {
                Some(address_channel(a) as usize)
            } else {
                old.dma_started
            }
            &&& *new == Bus { dma: new.dma, dma_started: new.dma_started, scheduler: s, ..*old }
        } else if a == 0x1f801810 {
            &&& gp0_effect(&old.gpu, &new.gpu, value)
            &&& *new == Bus { gpu: new.gpu, scheduler: s, ..*old }
        } else if a == 0x1f801814 {
            &&& gp1_effect(&old.gpu, &new.gpu, value)
            &&& *new == Bus { gpu: new.gpu, scheduler: s, ..*old }
        } else {
            *new == if a == 0x1f801000 {
                Bus { exp1_base_address: (value & 0xffffff) | 0x1f000000, scheduler: s, ..*old }
            } else if a == 0x1f801004 {
                Bus {
                    exp2_base_address: (value & 0xffffff) | 0x1f000000,
                    exp2_enabled: (value & 0xffffff) | 0x1f000000 == 0x1f802000,
                    scheduler: s,
                    ..*old
                }
            } else if a == 0x1f801008 {
                Bus { exp1_delay: old.exp1_delay.written(value), scheduler: s, ..*old }
            } else if a == 0x1f80100c {
                Bus { exp3_delay: old.exp3_delay.written(value), scheduler: s, ..*old }
            } else if a == 0x1f801010 {
                Bus { bios_delay: old.bios_delay.written(value), scheduler: s, ..*old }
            } else if a == 0x1f801014 {
                Bus { spu_delay: old.spu_delay.written(value), scheduler: s, ..*old }
            } else if a == 0x1f801018 {
                Bus { cdrom_delay: old.cdrom_delay.written(value), scheduler: s, ..*old }
            } else if a == 0x1f80101c {
                Bus { exp2_delay: old.exp2_delay.written(value), scheduler: s, ..*old }
            } else if a == 0x1f801020 {
                Bus { com_delay: value & 0xffff, scheduler: s, ..*old }
            } else if a == 0x1f801060 {
                Bus { ram_size: value, scheduler: s, ..*old }
            } else if a == 0x1f801070 {
                Bus { interrupt_stat: InterruptRegister { bits: old.interrupt_stat.bits & value }, scheduler: s, ..*old }
            } else if a == 0x1f801074 {
                Bus { interrupt_mask: InterruptRegister { bits: value & 0x7ff }, scheduler: s, ..*old }
            } else if a == 0x1f801114 {
                Bus { timers: [old.timers[0], mode_written(old.timers[1], value as u16), old.timers[2]], scheduler: s, ..*old }
            } else if a == 0x1f801118 {
                Bus { timers: [old.timers[0], Timer { counter_target: value as u16, ..old.timers[1] }, old.timers[2]], scheduler: s, ..*old }
            } else {
                Bus { cache_config: value & !0x440u32, scheduler: s, ..*old }
            }
        }
    }

    pub fn mem_write32(&mut self, address: u32, value: u32)
        requires
            old(self).wf(),
            old(self).can_write32(address, value),
        ensures
            final(self).wf(),
            Bus::write32_effect(old(self), final(self), translate(address), value),
    {
        let a = Self::translate_address(address);
        if 0x1f801000 <= a && a <= 0x1f802000 {
            self.scheduler.tick(5);
        }
        if a <= 0x1fffff {
            write32(&mut self.main_ram, a, value);
        } else if 0x1f800000 <= a && a <= 0x1f8003ff {
            write32(&mut self.scratchpad, a - 0x1f800000, value);
        } else if 0x1f801080 <= a && a <= 0x1f8010f4 {
            if self.dma.write_registers(a, value) {
                self.dma_started = Some((a - 0x1f801080) / 0x10);
            }
        } else if a == 0x1f801810 {
            self.gpu.process_gp0_commands(value);
        } else if a == 0x1f801814 {
            self.gpu.process_gp1_commands(value);
        } else if a == 0x1f801000 {
            self.exp1_base_address = value & 0xffffff | 0x1f00_0000;
        } else if a == 0x1f801004 {
            self.exp2_base_address = value & 0xffffff | 0x1f00_0000;
            self.exp2_enabled = self.exp2_base_address == 0x1f802000;
        } else if a == 0x1f801008 {
            self.exp1_delay.write(value);
        } else if a == 0x1f80100c {
            self.exp3_delay.write(value);
        } else if a == 0x1f801010 {
            self.bios_delay.write(value);
        } else if a == 0x1f801014 {
            self.spu_delay.write(value);
        } else if a == 0x1f801018 {
            self.cdrom_delay.write(value);
        } else if a == 0x1f80101c {
            self.exp2_delay.write(value);
        } else if a == 0x1f801020 {
            self.com_delay = value & 0xffff;
        } else if a == 0x1f801060 {
            self.ram_size = value;
        } else if a == 0x1f801070 {
            let new_stat = self.interrupt_stat.bits() & value;
            self.interrupt_stat = InterruptRegister::from_bits_retain(new_stat);
        } else if a == 0x1f801074 {
            self.interrupt_mask = InterruptRegister::from_bits_truncate(value);
        } else if a == 0x1f801114 {
            let ghost before = self.timers;
            let mut t = self.timers[1];
            t.write_counter_register(value as u16);
            self.timers[1] = t;
            assert(self.timers =~= [before[0], t, before[2]]);
        } else if a == 0x1f801118 {
            let ghost before = self.timers;
            let mut t = self.timers[1];
            t.counter_target = value as u16;
            self.timers[1] = t;
            assert(self.timers =~= [before[0], t, before[2]]);
            assert(self.timers == [before[0], Timer { counter_target: value as u16, ..before[1] }, before[2]]);
        } else {
            // bits 6 and 10 are not kept
            self.cache_config = value & !0x440u32;
        }
    }

    /// The timers with timer `i` replaced by `t`.
    pub open spec fn timers_with(ts: [Timer; 3], i: int, t: Timer) -> [Timer; 3] {
        if i == 0 {
            [t, ts[1], ts[2]]
        } else if i == 1 {
            [ts[0], t, ts[2]]
        } else {
            [ts[0], ts[1], t]
        }
    }

    pub fn set_timer(&mut self, i: usize, t: Timer)
        requires
            i < 3,
        ensures
            *final(self) == (Bus { timers: Bus::timers_with(old(self).timers, i as int, t), ..*old(self) }),
    {
        let ghost before = self.timers;
        self.timers[i] = t;
        assert(self.timers =~= Bus::timers_with(before, i as int, t));
    }

    /// Whether a 16-bit write to `address` reaches something that takes it.
    pub open spec fn can_write16(&self, address: u32, value: u16) -> bool {
        let a = translate(address);
        &&& self.scheduler.cycles + 5 <= usize::MAX
        &&& {
            ||| a <= 0x1fffff && in_ram(a, 2)
            ||| a <= 0x1f8003ff && in_scratchpad(a, 2)
            ||| a == 0x1f801070 || a == 0x1f801074 || a == 0x1f801076
            ||| a == 0x1f801100 || a == 0x1f801104 || a == 0x1f801108
            ||| a == 0x1f801110 || a == 0x1f801114 || a == 0x1f801118
            ||| a == 0x1f801120 || a == 0x1f801124 || a == 0x1f801128
            ||| a == 0x1f801048 || a == 0x1f80104a || a == 0x1f80104e
            ||| self.spu.accepts_write16(a, value)
        }
    }

    /// A timer after a 16-bit write to its register `reg` (0 counter, 4 mode, 8 target).
    pub open spec fn timer_written16(t: Timer, reg: int, value: u16) -> Timer {
        if reg == 0 {
            Timer { counter: value as u32, one_shot_fired: false, ..t }
        } else if reg == 4 {
            mode_written(t, value)
        } else {
            Timer { counter_target: value, ..t }
        }
    }

    /// What a 16-bit write of `value` to physical address `a` does.
    pub open spec fn write16_effect(old: &Bus, new: &Bus, a: usize, value: u16) -> bool {
        let s = old.ticked(Bus::write_ticks(a));
        if a <= 0x1fffff {
            &&& new.main_ram@ =~= spec_write16(old.main_ram@, a as int, value)
            &&& *new == Bus { main_ram: new.main_ram, scheduler: s, ..*old }
        } else if 0x1f800000 <= a <= 0x1f8003ff {
            &&& new.scratchpad@ =~= spec_write16(old.scratchpad@, a - 0x1f800000, value)
            &&& *new == Bus { scratchpad: new.scratchpad, scheduler: s, ..*old }
        } else if a == 0x1f801070 {
            *new == Bus { interrupt_stat: InterruptRegister { bits: old.interrupt_stat.bits & value as u32 }, scheduler: s, ..*old }
        } else if a == 0x1f801074 {
            *new == Bus { interrupt_mask: InterruptRegister { bits: (old.interrupt_mask.bits & 0xffff0000) | value as u32 }, scheduler: s, ..*old }
        } else if a == 0x1f801076 {
            *new == Bus { interrupt_mask: InterruptRegister { bits: (old.interrupt_mask.bits & 0xffff) | ((value as u32) << 16u32) }, scheduler: s, ..*old }
        } else if a == 0x1f801048 {
            *new == Bus { peripherals: Peripherals { mode: peripherals::sio_mode::SIOMode { value }, ..old.peripherals }, scheduler: s, ..*old }
        } else if a == 0x1f80104e {
            *new == Bus { peripherals: Peripherals { baudrate_timer: value, ..old.peripherals }, scheduler: s, ..*old }
        } else if a == 0x1f80104a {
            &&& old.peripherals.ctrl_written(&new.peripherals, value, &s, &new.scheduler)
            &&& *new == Bus { peripherals: new.peripherals, scheduler: new.scheduler, ..*old }
        } else if 0x1f801c00 <= a <= 0x1f801e7f {
            &&& old.spu.written16(new.spu, a, value, old.interrupt_stat.bits, new.interrupt_stat.bits)
            &&& *new == Bus { spu: new.spu, interrupt_stat: new.interrupt_stat, scheduler: s, ..*old }
        } else {
            let i = (a - 0x1f801100) / 0x10;
            let reg = (a - 0x1f801100) % 0x10;
            *new == Bus {
                timers: Bus::timers_with(old.timers, i, Bus::timer_written16(old.timers[i], reg, value)),
                scheduler: s,
                ..*old
            }
        }
    }

    pub fn mem_write16(&mut self, address: u32, value: u16)
        requires
            old(self).wf(),
            old(self).can_write16(address, value),
        ensures
            final(self).wf(),
            Bus::write16_effect(old(self), final(self), translate(address), value),
    {
        let a = Self::translate_address(address);
        if 0x1f801000 <= a && a <= 0x1f802000 {
            self.scheduler.tick(5);
        }
        if a <= 0x1fffff {
            write16(&mut self.main_ram, a, value);
        } else if 0x1f800000 <= a && a <= 0x1f8003ff {
            write16(&mut self.scratchpad, a - 0x1f800000, value);
        } else if a == 0x1f801070 {
            let new_stat = self.interrupt_stat.bits() & value as u32;
            self.interrupt_stat = InterruptRegister::from_bits_retain(new_stat);
        } else if a == 0x1f801074 {
            self.interrupt_mask = InterruptRegister::from_bits_retain(
                (self.interrupt_mask.bits() & 0xffff0000) | value as u32,
            );
        } else if a == 0x1f801076 {
            self.interrupt_mask = InterruptRegister::from_bits_retain(
                (self.interrupt_mask.bits() & 0xffff) | (value as u32) << 16,
            );
        } else if a == 0x1f801048 {
            self.peripherals.write_mode(value);
        } else if a == 0x1f80104e {
            self.peripherals.write_reload_rate(value);
        } else if a == 0x1f80104a {
            self.peripherals.write_ctrl(value, &mut self.scheduler);
        } else if 0x1f801c00 <= a && a <= 0x1f801e7f {
            self.spu.write16(a, value, &mut self.interrupt_stat);
        } else {
            let i = (a - 0x1f801100) / 0x10;
            let reg = (a - 0x1f801100) % 0x10;
            let mut t = self.timers[i];
            if reg == 0 {
                t.write_counter(value as u32);
            } else if reg == 4 {
                t.write_counter_register(value);
            } else {
                t.counter_target = value;
            }
            self.set_timer(i, t);
        }
    }

    /// Whether an 8-bit write to `address` reaches something that takes it.
    pub open spec fn can_write8(&self, address: u32) -> bool {
        let a = translate(address);
        &&& self.scheduler.cycles + 5 <= usize::MAX
        &&& {
            ||| a <= 0x1fffff
            ||| a <= 0x1f8003ff && in_scratchpad(a, 1)
            ||| a == 0x1f802041
            ||| a == 0x1f801040 && self.scheduler.cycles + (self.peripherals.baudrate_timer & !1u16) * 8 <= usize::MAX
        }
    }

    /// What an 8-bit write of `value` to physical address `a` does; the expansion 2 POST
    /// register costs 5 cycles.
    pub open spec fn write8_effect(old: &Bus, new: &Bus, a: usize, value: u8) -> bool {
        if a <= 0x1fffff {
            &&& new.main_ram@ =~= old.main_ram@.update(a as int, value)
            &&& *new == Bus { main_ram: new.main_ram, ..*old }
        } else if 0x1f800000 <= a <= 0x1f8003ff {
            &&& new.scratchpad@ =~= old.scratchpad@.update(a - 0x1f800000, value)
            &&& *new == Bus { scratchpad: new.scratchpad, ..*old }
        } else if a == 0x1f801040 {
            &&& old.peripherals.byte_written(&new.peripherals, value, &old.scheduler, &new.scheduler)
            &&& new.peripherals.wf()
            &&& *new == Bus { peripherals: new.peripherals, scheduler: new.scheduler, ..*old }
        } else {
            *new == Bus { exp1_post: value, scheduler: old.ticked(5), ..*old }
        }
    }

    pub fn mem_write8(&mut self, address: u32, value: u8)
        requires
            old(self).wf(),
            old(self).can_write8(address),
        ensures
            final(self).wf(),
            Bus::write8_effect(old(self), final(self), translate(address), value),
    {
        let a = Self::translate_address(address);
        if a <= 0x1fffff {
            self.main_ram.set(a, value);
        } else if 0x1f800000 <= a && a <= 0x1f8003ff {
            self.scratchpad.set(a - 0x1f800000, value);
        } else if a == 0x1f801040 {
            self.peripherals.write_byte(value, &mut self.scheduler);
        } else {
            self.scheduler.tick(5);
            self.exp1_post = value;
        }
    }

    // ----- access checks -----

    pub fn check_read32(&self, address: u32) -> (r: bool)
        requires
            self.wf(),
        ensures
            r == self.can_read32(address),
    {
        let a = Self::translate_address(address);
        self.scheduler.cycles <= usize::MAX - 5 && ((a <= 0x1fffff && a + 4 <= RAM_SIZE) || (
        0x1f800000 <= a && a <= 0x1f8003ff && a - 0x1f800000 + 4 <= SCRATCHPAD_SIZE) || a
            == 0x1f801014 || a == 0x1f801060 || a == 0x1f801070 || a == 0x1f801074 || (0x1f801080
            <= a && a <= 0x1f8010f4 && self.dma.check_read(a)) || a == 0x1f801110 || a
            == 0x1f801810 || a == 0x1f801814 || (0x1fc00000 <= a && a <= 0x1fc80000 && a
            - 0x1fc00000 + 4 <= self.bios.len()))
    }

    pub fn check_read16(&self, address: u32) -> (r: bool)
        requires
            self.wf(),
        ensures
            r == self.can_read16(address),
    {
        let a = Self::translate_address(address);
        self.scheduler.cycles <= usize::MAX - 5 && ((a <= 0x1fffff && a + 2 <= RAM_SIZE) || (
        0x1f800000 <= a && a <= 0x1f8003ff && a - 0x1f800000 + 2 <= SCRATCHPAD_SIZE) || a
            == 0x1f801070 || a == 0x1f801072 || a == 0x1f801074 || a == 0x1f801076 || a
            == 0x1f801120 || a == 0x1f801044 || a == 0x1f80104a || SPU::check_read16(a))
    }

    pub fn check_read8(&self, address: u32) -> (r: bool)
        ensures
            r == self.can_read8(address),
    {
        let a = Self::translate_address(address);
        self.scheduler.cycles <= usize::MAX - 4 && (a <= 0x1fffff || (0x1f800000 <= a && a
            <= 0x1f8003ff && a - 0x1f800000 + 1 <= SCRATCHPAD_SIZE) || (0x1f000000 <= a && a
            <= 0x1f02ffff) || (0x1fc00000 <= a && a <= 0x1fc80000 && a - 0x1fc00000 + 1
            <= self.bios.len()) || a == 0x1f801040)
    }

    pub fn check_write32(&self, address: u32, value: u32) -> (r: bool)
        ensures
            r == self.can_write32(address, value),
    {
        let a = Self::translate_address(address);
        self.scheduler.cycles <= usize::MAX - 5 && ((a <= 0x1fffff && a + 4 <= RAM_SIZE) || (
        0x1f800000 <= a && a <= 0x1f8003ff && a - 0x1f800000 + 4 <= SCRATCHPAD_SIZE) || a
            == 0x1f801000 || a == 0x1f801004 || a == 0x1f801008 || a == 0x1f80100c || a
            == 0x1f801010 || a == 0x1f801014 || a == 0x1f801018 || a == 0x1f80101c || a
            == 0x1f801020 || a == 0x1f801060 || a == 0x1f801070 || a == 0x1f801074 || (0x1f801080
            <= a && a <= 0x1f8010f4 && Dma::check_write(a)) || a == 0x1f801114 || a == 0x1f801118
            || (a == 0x1f801810 && self.gpu.accepts_gp0(value)) || (a == 0x1f801814
            && gpu::is_gp1_supported(value)) || a == 0xfffe0130)
    }

    pub fn check_write16(&self, address: u32, value: u16) -> (r: bool)
        requires
            self.wf(),
        ensures
            r == self.can_write16(address, value),
    {
        let a = Self::translate_address(address);
        self.scheduler.cycles <= usize::MAX - 5 && ((a <= 0x1fffff && a + 2 <= RAM_SIZE) || (
        0x1f800000 <= a && a <= 0x1f8003ff && a - 0x1f800000 + 2 <= SCRATCHPAD_SIZE) || a
            == 0x1f801070 || a == 0x1f801074 || a == 0x1f801076 || a == 0x1f801100 || a
            == 0x1f801104 || a == 0x1f801108 || a == 0x1f801110 || a == 0x1f801114 || a
            == 0x1f801118 || a == 0x1f801120 || a == 0x1f801124 || a == 0x1f801128
            || a == 0x1f801048 || a == 0x1f80104a || a == 0x1f80104e
            || self.spu.check_write16(a, value))
    }

    pub fn check_write8(&self, address: u32) -> (r: bool)
        ensures
            r == self.can_write8(address),
    {
        let a = Self::translate_address(address);
        let transfer_delay: usize = ((self.peripherals.baudrate_timer & !1u16) as usize) * 8;
        self.scheduler.cycles <= usize::MAX - 5 && (a <= 0x1fffff || (0x1f800000 <= a && a
            <= 0x1f8003ff && a - 0x1f800000 + 1 <= SCRATCHPAD_SIZE) || a == 0x1f802041 || (a
            == 0x1f801040 && self.scheduler.cycles <= usize::MAX - transfer_delay))
    }

    /// Whether `cycles` CPU cycles keep the scheduler's clock and timers 0 and 1 in range.
    pub fn can_run(&self, cycles: usize) -> (r: bool)
        ensures
            r == (self.scheduler.cycles + cycles <= usize::MAX && timer::tick_in_range(self.timers[0], cycles)
                && timer::tick_in_range(self.timers[1], cycles)),
    {
        self.scheduler.cycles <= usize::MAX - cycles && self.timers[0].can_tick(cycles)
            && self.timers[1].can_tick(cycles)
    }
}


/// A word read of main RAM or the scratchpad gives back the word last written to the same
/// address.
pub proof fn lemma_word_read_after_write(old: Bus, new: Bus, address: u32, value: u32)
    requires
        old.wf(),
        old.can_write32(address, value),
        translate(address) <= 0x1f8003ff,
        translate(address) <= 0x1fffff || 0x1f800000 <= translate(address),
        Bus::write32_effect(&old, &new, translate(address), value),
    ensures
        new.spec_read32(translate(address)) == value,
{
    let a = translate(address);
    if a <= 0x1fffff {
        lemma_read32_after_write32(old.main_ram@, a as int, value);
    } else {
        lemma_read32_after_write32(old.scratchpad@, a - 0x1f800000, value);
    }
}

/// A halfword read of main RAM or the scratchpad gives back the halfword last written to the
/// same address.
pub proof fn lemma_halfword_read_after_write(old: Bus, new: Bus, address: u32, value: u16)
    requires
        old.wf(),
        old.can_write16(address, value),
        translate(address) <= 0x1f8003ff,
        translate(address) <= 0x1fffff || 0x1f800000 <= translate(address),
        Bus::write16_effect(&old, &new, translate(address), value),
    ensures
        new.spec_read16(translate(address)) == value as u32,
{
    let a = translate(address);
    if a <= 0x1fffff {
        lemma_read16_after_write16(old.main_ram@, a as int, value);
    } else {
        lemma_read16_after_write16(old.scratchpad@, a - 0x1f800000, value);
    }
}

/// A byte read of main RAM or the scratchpad gives back the byte last written to the same
/// address.
pub proof fn lemma_byte_read_after_write(old: Bus, new: Bus, address: u32, value: u8)
    requires
        old.wf(),
        old.can_write8(address),
        translate(address) <= 0x1f8003ff,
        translate(address) <= 0x1fffff || 0x1f800000 <= translate(address),
        Bus::write8_effect(&old, &new, translate(address), value),
    ensures
        new.spec_read8(translate(address)) == value as u32,
{
}

/// Writing the interrupt status register only acknowledges: no bit that was clear becomes
/// set.
pub proof fn lemma_interrupt_ack_only_clears(old: Bus, new: Bus, address: u32, value: u32)
    requires
        old.wf(),
        old.can_write32(address, value),
        translate(address) == 0x1f801070,
        Bus::write32_effect(&old, &new, translate(address), value),
    ensures
        new.interrupt_stat.bits & !old.interrupt_stat.bits == 0,
        new.interrupt_stat.bits == old.interrupt_stat.bits & value,
{
    let o = old.interrupt_stat.bits;
    assert((o & value) & !o == 0) by (bit_vector);
}

} // verus!
