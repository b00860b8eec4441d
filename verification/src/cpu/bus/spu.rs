pub mod reverb;
pub mod spu_control_register;
pub mod spu_stat_register;
pub mod voice;
pub mod mixer;

use vstd::prelude::*;
use std::collections::VecDeque;
use crate::memory::{read16, write16, spec_read16, spec_write16, lemma_read16_after_write16};
use vstd::arithmetic::div_mod::lemma_add_mod_noop;
use crate::cpu::bus::registers::interrupt_register::InterruptRegister;
use crate::cpu::bus::scheduler::{EventType, Scheduler, event_code};
use reverb::{Reverb, is_reverb_register};
use spu_control_register::{SoundRamTransferMode, SpuControlRegister, spec_transfer_mode};
use spu_stat_register::SpuStatRegister;
use voice::{Voice, is_voice_register};

verus! {

/// The size of sound RAM in bytes.
pub const SOUND_RAM_SIZE: usize = 0x8_0000;

/// `value` limited to `min..=max`, as a 16-bit sample.
pub open spec fn spec_clamp(value: i32, min: i32, max: i32) -> i16 {
    if value < min {
        min as i16
    } else if value > max {
        max as i16
    } else {
        value as i16
    }
}

pub fn clamp(value: i32, min: i32, max: i32) -> (r: i16)
    ensures
        r == spec_clamp(value, min, max),
{
    if value < min {
        return min as i16;
    }
    if value > max {
        return max as i16;
    }
    value as i16
}

/// The SPU's 512 KiB of sound RAM.
pub struct SoundRam {
    pub ram: Vec<u8>,
}

impl SoundRam {
    pub open spec fn wf(&self) -> bool {
        self.ram@.len() == SOUND_RAM_SIZE
    }

    /// Zeroed sound RAM.
    pub fn new() -> (r: Self)
        ensures
            r.wf(),
            forall|i: int| 0 <= i < SOUND_RAM_SIZE ==> r.ram@[i] == 0,
    {
        Self { ram: vec![0u8; SOUND_RAM_SIZE] }
    }

    /// The little-endian halfword at `address`.
    pub fn read16(&self, address: usize) -> (r: u16)
        requires
            self.wf(),
            address + 2 <= SOUND_RAM_SIZE,
        ensures
            r == spec_read16(self.ram@, address as int),
    {
        read16(&self.ram, address)
    }

    pub fn read8(&self, address: usize) -> (r: u8)
        requires
            self.wf(),
            address < SOUND_RAM_SIZE,
        ensures
            r == self.ram@[address as int],
    {
        self.ram[address]
    }

    pub fn write16(&mut self, address: usize, value: u16)
        requires
            old(self).wf(),
            address + 2 <= SOUND_RAM_SIZE,
        ensures
            final(self).wf(),
            final(self).ram@ == spec_write16(old(self).ram@, address as int, value),
    {
        write16(&mut self.ram, address, value)
    }
}

/// The depth of the transfer FIFO, in halfwords.
pub const FIFO_SIZE: usize = 32;
/// The most samples the audio buffer holds before the frontend drains it.
pub const NUM_SAMPLES: usize = 16384;
/// CPU cycles between two SPU samples.
pub const SPU_CYCLES: usize = 768;
/// The size of each capture buffer in sound RAM, in bytes.
pub const CAPTURE_SIZE: usize = 0x400;

/// Whether an access that reaches the IRQ address raises the SPU interrupt: the interrupt
/// is enabled in SPUCNT and not already flagged in SPUSTAT.
pub open spec fn spec_irq_triggerable(cnt: u16, stat: u16) -> bool {
    &&& cnt & 0x40 == 0x40
    &&& stat & 0x40 != 0x40
}

/// The DMA request bits of SPUSTAT for a transfer mode and a FIFO fill level: a DMA read
/// requests when the FIFO is full, a DMA write when it is empty, other modes never.
pub open spec fn request_bits(mode: SoundRamTransferMode, fifo_len: nat) -> u16 {
    match mode {
        SoundRamTransferMode::DMARead => if fifo_len == FIFO_SIZE { 0x280u16 } else { 0u16 },
        SoundRamTransferMode::DMAWrite => if fifo_len == 0 { 0x180u16 } else { 0u16 },
        _ => 0u16,
    }
}

/// SPUSTAT with its three DMA request bits recomputed.
pub open spec fn dma_requested(stat: u16, mode: SoundRamTransferMode, fifo_len: nat) -> u16 {
    (stat & !0x380u16) | request_bits(mode, fifo_len)
}

/// Which voice a register address selects.
pub open spec fn voice_index(address: usize) -> int {
    ((address >> 4usize) & 0x1f) as int
}

/// Whether `address` names a register of one of the 24 voices.
pub open spec fn is_voice_address(address: usize) -> bool {
    0x1f801c00 <= address <= 0x1f801d7f && address % 2 == 0
}

proof fn lemma_voice_address(a: usize)
    by (bit_vector)
    requires
        0x1f801c00 <= a <= 0x1f801d7f,
    ensures
        (a >> 4usize) & 0x1f < 24,
        ((a - 0x1f801c00) as usize) & 0xf == a & 0xf,
        a & 0xf < 16,
        a % 2 == 0 ==> (a & 0xf) % 2 == 0,
{
}

/// Facts on SPUSTAT's bits: recomputing the DMA request bits keeps the others, and a
/// flagged interrupt stays flagged.
proof fn lemma_stat_bits(s: u16, m1: u16, m2: u16, b: bool)
    by (bit_vector)
    requires
        m1 == 0 || m1 == 0x280 || m1 == 0x180,
        m2 == 0 || m2 == 0x280 || m2 == 0x180,
    ensures
        ((s | 0x40) & !0x380u16) | m1 == ((s & !0x380u16) | m1) | 0x40,
        ((((s & !0x380u16) | m1) & !0x380u16) | m2) == (s & !0x380u16) | m2,
        (((s & !0x380u16) | m1) & 0x40) == s & 0x40,
        (s | 0x40) & 0x40 == 0x40,
        (s & !0x400u16) & 0x40 == s & 0x40,
        (if b { ((if b { s | 0x200 } else { s & !0x200u16 }) & !0x100u16) | 0x80 } else { ((if b { s | 0x200 } else { s & !0x200u16 }) & !0x100u16) & !0x80u16 })
            == (s & !0x380u16) | (if b { 0x280u16 } else { 0u16 }),
        (if b { ((s & !0x200u16) | 0x100) | 0x80 } else { ((s & !0x200u16) & !0x100u16) & !0x80u16 })
            == (s & !0x380u16) | (if b { 0x180u16 } else { 0u16 }),
        ((s & !0x200u16) & !0x100u16) & !0x80u16 == s & !0x380u16,
        (s & !0x380u16) | 0u16 == s & !0x380u16,
{
}

proof fn lemma_address_bits(i: usize, p: usize, c: u32)
    by (bit_vector)
    requires
        i < 4,
        p < 0x400,
        c < 0x80000,
    ensures
        (i * 0x400) as usize | p == i * 0x400 + p,
        (c + 2) as u32 & 0x7ffff == (c + 2) % 0x80000,
{
}

proof fn lemma_key_bits(e: u32, kon: u32, i: u32)
    by (bit_vector)
    requires
        i < 24,
    ensures
        (kon >> i) & 1 == 1 ==> (e & !(kon & !(0xffffffffu32 << i))) & !(1u32 << i) == e & !(kon
            & !(0xffffffffu32 << ((i + 1) as u32))),
        (kon >> i) & 1 != 1 ==> e & !(kon & !(0xffffffffu32 << i)) == e & !(kon & !(0xffffffffu32
            << ((i + 1) as u32))),
        e & !(kon & !(0xffffffffu32 << 0u32)) == e,
        !(0xffffffffu32 << 24u32) == 0xffffffu32,
{
}

/// Whether bit `i` of `x` is set.
pub open spec fn bit(x: u32, i: int) -> bool {
    (x >> (i as u32)) & 1 == 1
}

/// A voice after the key off and key on requests that name it: key off first, then key on.
pub open spec fn keyed(v: Voice, off: bool, on: bool) -> Voice {
    let v1 = if off { v.keyed_off() } else { v };
    if on { v1.keyed_on() } else { v1 }
}

/// Whether a register write at `address` only stores the value, with no side effect beyond
/// the register itself.
pub open spec fn is_plain_register(address: usize) -> bool {
    ||| 0x1f801d80 <= address <= 0x1f801d9a && address % 2 == 0
    ||| address == 0x1f801dac
    ||| 0x1f801db0 <= address <= 0x1f801db6 && address % 2 == 0
    ||| address == 0x1f801da2
    ||| 0x1f801dc0 <= address <= 0x1f801dfe && address % 2 == 0
}

/// Whether `address` is an SPU register that the CPU can read.
pub open spec fn is_readable(address: usize) -> bool {
    ||| is_voice_address(address)
    ||| 0x1f801d84 <= address <= 0x1f801d9a && address % 2 == 0
    ||| address == 0x1f801da6
    ||| 0x1f801daa <= address <= 0x1f801dae && address % 2 == 0
    ||| address == 0x1f801db8
    ||| address == 0x1f801dba
}

/// Whether `address` is an SPU register that the CPU can write.
pub open spec fn is_writable(address: usize) -> bool {
    ||| is_voice_address(address)
    ||| is_plain_register(address)
    ||| 0x1f801da4 <= address <= 0x1f801daa && address % 2 == 0
}

proof fn lemma_halfword_bits(k: u32, v: u16)
    by (bit_vector)
    ensures
        ((k & 0xffff0000) | v as u32) as u16 == v,
        (((k & 0xffff) | ((v as u32) << 16u32)) >> 16u32) as u16 == v,
        (v as i16) as u16 == v,
{
}

/// Reading back a plain SPU register gives the halfword last written to it: the reverb
/// output volumes, the halves of the key on and key off masks, the upper halves of the
/// pitch modulation, noise and echo masks, and the transfer type.
pub proof fn lemma_register_read_after_write(spu: SPU, address: usize, value: u16)
    requires
        address == 0x1f801d84 || address == 0x1f801d86 || address == 0x1f801d88
            || address == 0x1f801d8a || address == 0x1f801d8c || address == 0x1f801d8e
            || address == 0x1f801d92 || address == 0x1f801d96 || address == 0x1f801d9a
            || address == 0x1f801dac,
    ensures
        spu.with_register(address, value).register_value(address) == value,
{
    lemma_halfword_bits(spu.keyon, value);
    lemma_halfword_bits(spu.keyoff, value);
    lemma_halfword_bits(spu.sound_modulation, value);
    lemma_halfword_bits(spu.noise_enable, value);
    lemma_halfword_bits(spu.echo_on, value);
}

/// Reading back a voice's pitch, start address, current ADSR volume or repeat address
/// gives the halfword last written to it.
pub proof fn lemma_voice_read_after_write(voice: Voice, channel: usize, value: u16)
    requires
        channel == 4 || channel == 6 || channel == 0xc || channel == 0xe,
    ensures
        voice.written(channel, value).spec_read(channel) == value,
{
    lemma_halfword_bits(0, value);
}

/// The halfwords of `ram` at `n` consecutive halfword addresses from `address`.
pub open spec fn read_run(ram: Seq<u8>, address: int, n: nat) -> Seq<u16> {
    Seq::new(n, |k: int| spec_read16(ram, address + 2 * k))
}

/// `ram` with `values` stored at consecutive halfword addresses from `address`, wrapping at
/// the end of sound RAM.
pub open spec fn written_run(ram: Seq<u8>, address: int, values: Seq<u16>) -> Seq<u8>
    decreases values.len(),
{
    if values.len() == 0 {
        ram
    } else {
        spec_write16(
            written_run(ram, address, values.drop_last()),
            (address + 2 * (values.len() - 1)) % (SOUND_RAM_SIZE as int),
            values.last(),
        )
    }
}

/// Whether a transfer of `n` halfwords from `address` reaches `irq` after one of its steps.
pub open spec fn reached(irq: u32, address: int, n: nat) -> bool
    decreases n,
{
    n > 0 && (reached(irq, address, (n - 1) as nat) || address + 2 * n == irq)
}

/// Whether a transfer of `n` halfwords from `address`, wrapping at the end of sound RAM,
/// starts one of its steps at `irq`.
pub open spec fn starts_at(irq: u32, address: int, n: nat) -> bool
    decreases n,
{
    n > 0 && (starts_at(irq, address, (n - 1) as nat) || (address + 2 * (n - 1)) % (SOUND_RAM_SIZE as int) == irq)
}

/// One step of a transfer on SPUSTAT: the IRQ flag, once raised, stays raised, and the DMA
/// request bits are those of the latest fill level.
proof fn lemma_stat_step(s0: u16, stat: u16, fired: bool, hit: bool, first: bool, m1: u16, m2: u16)
    by (bit_vector)
    requires
        m1 == 0 || m1 == 0x280 || m1 == 0x180,
        m2 == 0 || m2 == 0x280 || m2 == 0x180,
        stat == if first {
            s0
        } else {
            ((if fired { s0 | 0x40 } else { s0 }) & !0x380u16) | m1
        },
    ensures
        stat & 0x40 == if fired && !first { 0x40 } else { s0 & 0x40 },
        ({
            let s1 = if hit { stat | 0x40 } else { stat };
            let fx = if (fired && !first) || hit { s0 | 0x40 } else { s0 };
            &&& (s1 & !0x380u16) | m2 == (fx & !0x380u16) | m2
            &&& ((s1 & !0x380u16) | m2) & 0x40 == if (fired && !first) || hit { 0x40 } else { s0 & 0x40 }
        }),
{
}

proof fn lemma_written_run_len(ram: Seq<u8>, address: int, values: Seq<u16>)
    requires
        ram.len() == SOUND_RAM_SIZE,
        address % 2 == 0,
    ensures
        written_run(ram, address, values).len() == SOUND_RAM_SIZE,
    decreases values.len(),
{
    if values.len() > 0 {
        lemma_written_run_len(ram, address, values.drop_last());
        let x = address + 2 * (values.len() - 1);
        vstd::arithmetic::div_mod::lemma_mod_mod(x, 2, 0x40000);
        assert(0x80000int == 2 * 0x40000);
        assert(x % 2 == 0);
    }
}

/// A halfword written through the sound RAM data port can be read back from sound RAM at
/// the halfword just before the new transfer address.
pub proof fn lemma_data_port_read_back(old: SPU, new: SPU, value: u16, ir0: u32, ir1: u32)
    requires
        old.wf(),
        old.manual_write_fits(),
        old.manual_written(new, value, ir0, ir1),
    ensures
        spec_read16(new.sound_ram.ram@, new.current_ram_address - 2) == value,
{
    let a0 = old.current_ram_address as int;
    let n: nat = if old.flushes_before_write() { old.sample_fifo@.len() } else { 0 };
    lemma_written_run_len(old.sound_ram.ram@, a0, old.sample_fifo@.reverse());
    let before = if old.flushes_before_write() {
        written_run(old.sound_ram.ram@, a0, old.sample_fifo@.reverse())
    } else {
        old.sound_ram.ram@
    };
    lemma_read16_after_write16(before, a0 + 2 * n, value);
}

/// The sound processing unit: 24 voices, the sound RAM and the transfer into and out of it,
/// the key on/off and mixing registers, the capture buffers and the reverb registers.
pub struct SPU {
    pub reverb: Reverb,
    pub main_volume_left: u16,
    pub main_volume_right: u16,
    pub spucnt: SpuControlRegister,
    pub spustat: SpuStatRegister,
    pub sound_modulation: u32,
    pub keyoff: u32,
    pub keyon: u32,
    pub noise_enable: u32,
    pub echo_on: u32,
    pub cd_volume: (u16, u16),
    pub reverb_volume: (u16, u16),
    pub current_volume: (u16, u16),
    pub external_volume: (u16, u16),
    pub sound_ram_transfer_type: u16,
    pub current_ram_address: u32,
    pub sound_ram_address: u32,
    pub irq_address: u32,
    pub voices: Vec<Voice>,
    pub sample_fifo: VecDeque<u16>,
    pub sound_ram: SoundRam,
    pub audio_buffer: Vec<i16>,
    pub endx: u32,
    pub cd_left_samples: VecDeque<i16>,
    pub cd_right_samples: VecDeque<i16>,
    pub capture_buffer_pos: u16,
}

impl SPU {
    /// The invariant: 24 well-formed voices, sound RAM of its size, the transfer address a
    /// halfword inside it (or just past its end), the capture position a halfword inside a
    /// capture buffer, the audio buffer within its bound.
    pub open spec fn wf(&self) -> bool {
        &&& self.sound_ram.wf()
        &&& self.voices@.len() == 24
        &&& forall|i: int| 0 <= i < 24 ==> #[trigger] self.voices@[i].wf()
        &&& self.current_ram_address % 2 == 0
        &&& self.current_ram_address <= SOUND_RAM_SIZE
        &&& self.capture_buffer_pos % 2 == 0
        &&& self.capture_buffer_pos < CAPTURE_SIZE
        &&& self.audio_buffer@.len() <= NUM_SAMPLES
    }

    pub open spec fn irq_triggerable(&self) -> bool {
        spec_irq_triggerable(self.spucnt.bits, self.spustat.bits)
    }

    /// A powered-down SPU: silent voices, zeroed sound RAM and registers, empty FIFO and
    /// buffers; its first sample is scheduled.
    pub fn new(scheduler: &mut Scheduler) -> (r: Self)
        requires
            old(scheduler).wf(),
            old(scheduler).cycles + SPU_CYCLES <= usize::MAX,
        ensures
            r.wf(),
            final(scheduler).wf(),
            final(scheduler).cycles == old(scheduler).cycles,
            final(scheduler).events() == old(scheduler).events().insert(
                event_code(EventType::TickSpu),
                (old(scheduler).cycles + SPU_CYCLES) as usize,
            ),
            forall|i: int| 0 <= i < SOUND_RAM_SIZE ==> r.sound_ram.ram@[i] == 0,
            forall|i: int| 0 <= i < 24 ==> #[trigger] r.voices@[i].is_fresh(),
            r.spucnt.bits == 0 && r.spustat.bits == 0,
            r.keyon == 0 && r.keyoff == 0 && r.endx == 0,
            r.sound_modulation == 0 && r.noise_enable == 0 && r.echo_on == 0,
            r.current_ram_address == 0 && r.sound_ram_address == 0 && r.irq_address == 0,
            r.capture_buffer_pos == 0,
            r.sample_fifo@.len() == 0 && r.audio_buffer@.len() == 0,
            r.cd_left_samples@.len() == 0 && r.cd_right_samples@.len() == 0,
    {
        scheduler.schedule(EventType::TickSpu, SPU_CYCLES);
        let mut voices: Vec<Voice> = Vec::new();
        let mut i: usize = 0;
        while i < 24
            invariant
                i <= 24,
                voices@.len() == i,
                forall|j: int| #![trigger voices@[j]] 0 <= j < i ==> voices@[j].is_fresh() && voices@[j].wf(),
            decreases 24 - i,
        {
            voices.push(Voice::new());
            i = i + 1;
        }
        SPU {
            main_volume_left: 0,
            main_volume_right: 0,
            spucnt: SpuControlRegister::from_bits_retain(0),
            spustat: SpuStatRegister::from_bits_retain(0),
            keyoff: 0,
            sound_modulation: 0,
            noise_enable: 0,
            echo_on: 0,
            cd_volume: (0, 0),
            external_volume: (0, 0),
            current_volume: (0, 0),
            sound_ram_transfer_type: 0,
            sound_ram_address: 0,
            irq_address: 0,
            current_ram_address: 0,
            voices,
            keyon: 0,
            sample_fifo: VecDeque::new(),
            sound_ram: SoundRam::new(),
            endx: 0,
            reverb: Reverb::new(),
            audio_buffer: Vec::new(),
            cd_left_samples: VecDeque::new(),
            cd_right_samples: VecDeque::new(),
            reverb_volume: (0, 0),
            capture_buffer_pos: 0,
        }
    }

    /// SPUSTAT: current mode, IRQ flag, DMA request and busy flags, capture half.
    pub fn read_stat(&self) -> (r: u16)
        ensures
            r == self.spustat.bits,
    {
        self.spustat.bits()
    }

    /// A write to a voice register: the address selects the voice and its register.
    pub fn write_voices(&mut self, address: usize, value: u16)
        requires
            old(self).wf(),
            voice_index(address) < 24,
            is_voice_register(address & 0xf),
        ensures
            final(self).wf(),
            final(self).voices@ == old(self).voices@.update(
                voice_index(address),
                old(self).voices@[voice_index(address)].written(address & 0xf, value),
            ),
            *final(self) == (SPU { voices: final(self).voices, ..*old(self) }),
    {
        let voice = (address >> 4) & 0x1f;
        let channel = address & 0xf;
        let mut v = self.voices[voice];
        v.write(channel, value);
        self.voices.set(voice, v);
    }

    /// A read of a voice register.
    pub fn read_voices(&self, address: usize) -> (r: u16)
        requires
            self.wf(),
            address >= 0x1f801c00,
            voice_index(address) < 24,
            is_voice_register((address - 0x1f801c00) as usize & 0xf),
        ensures
            r == self.voices@[voice_index(address)].spec_read((address - 0x1f801c00) as usize & 0xf),
    {
        let voice = (address >> 4) & 0x1f;
        let channel = (address - 0x1f801c00) & 0xf;
        self.voices[voice].read(channel)
    }

    /// A word from DMA enters the FIFO as two halfwords, the low one first.
    pub fn dma_write(&mut self, value: u32)
        ensures
            final(self).sample_fifo@ == old(self).sample_fifo@.push(value as u16).push((value >> 16u32) as u16),
            *final(self) == (SPU { sample_fifo: final(self).sample_fifo, ..*old(self) }),
    {
        self.sample_fifo.push_back(value as u16);
        self.sample_fifo.push_back((value >> 16) as u16);
    }

    /// Whether reaching the IRQ address now raises the interrupt.
    pub fn is_irq_triggerable(&self) -> (r: bool)
        ensures
            r == self.irq_triggerable(),
    {
        self.spucnt.contains(SpuControlRegister::IRQ9_ENABLE) && !self.spustat.contains(
            SpuStatRegister::IRQ9_FLAG,
        )
    }

    /// Recomputes SPUSTAT's DMA request bits from the transfer mode and the FIFO's fill level.
    pub fn update_dma_request(&mut self)
        ensures
            final(self).spustat.bits == dma_requested(
                old(self).spustat.bits,
                spec_transfer_mode(old(self).spucnt.bits),
                old(self).sample_fifo@.len(),
            ),
            *final(self) == (SPU { spustat: final(self).spustat, ..*old(self) }),
    {
        let ghost s = self.spustat.bits;
        match self.spucnt.sound_ram_transfer_mode() {
            SoundRamTransferMode::DMARead => {
                let full = self.sample_fifo.len() == FIFO_SIZE;
                self.spustat.set(SpuStatRegister::DMA_READ_REQUEST, full);
                self.spustat.remove(SpuStatRegister::DMA_WRITE_REQUEST);
                self.spustat.set(SpuStatRegister::DMA_REQUEST_BIT, full);
                proof {
                    lemma_stat_bits(s, 0, 0, full);
                }
            },
            SoundRamTransferMode::DMAWrite => {
                let empty = self.sample_fifo.len() == 0;
                self.spustat.remove(SpuStatRegister::DMA_READ_REQUEST);
                self.spustat.set(SpuStatRegister::DMA_WRITE_REQUEST, empty);
                self.spustat.set(SpuStatRegister::DMA_REQUEST_BIT, empty);
                proof {
                    lemma_stat_bits(s, 0, 0, empty);
                }
            },
            _ => {
                self.spustat.remove(SpuStatRegister::DMA_READ_REQUEST);
                self.spustat.remove(SpuStatRegister::DMA_WRITE_REQUEST);
                self.spustat.remove(SpuStatRegister::DMA_REQUEST_BIT);
                proof {
                    lemma_stat_bits(s, 0, 0, false);
                }
            },
        }
    }

    /// Advances the capture position by one halfword, wrapping within a capture buffer, and
    /// records in SPUSTAT which half is being written.
    pub fn increment_capture_buffer_address(&mut self)
        requires
            old(self).wf(),
        ensures
            final(self).wf(),
            final(self).capture_buffer_pos == (old(self).capture_buffer_pos + 2) % CAPTURE_SIZE as int,
            final(self).spustat.bits == (if final(self).capture_buffer_pos >= CAPTURE_SIZE / 2 {
                old(self).spustat.bits | SpuStatRegister::CAPTURE_BUFFER_ID
            } else {
                old(self).spustat.bits & !SpuStatRegister::CAPTURE_BUFFER_ID
            }),
            *final(self) == (SPU {
                capture_buffer_pos: final(self).capture_buffer_pos,
                spustat: final(self).spustat,
                ..*old(self)
            }),
    {
        let ghost p = self.capture_buffer_pos;
        self.capture_buffer_pos = self.capture_buffer_pos + 2;
        self.capture_buffer_pos = self.capture_buffer_pos % (CAPTURE_SIZE as u16);
        proof {
            if p + 2 < CAPTURE_SIZE {
                assert((p + 2) % 0x400 == p + 2);
            } else {
                assert(p + 2 == 0x400);
                assert((p + 2) % 0x400 == 0);
            }
        }
        let second_half = self.capture_buffer_pos >= (CAPTURE_SIZE as u16 / 2);
        self.spustat.set(SpuStatRegister::CAPTURE_BUFFER_ID, second_half);
    }

    /// Appends an output sample to the audio buffer unless it is full.
    pub fn push_sample(&mut self, sample: i16)
        requires
            old(self).wf(),
        ensures
            final(self).wf(),
            final(self).audio_buffer@ == (if old(self).audio_buffer@.len() < NUM_SAMPLES {
                old(self).audio_buffer@.push(sample)
            } else {
                old(self).audio_buffer@
            }),
            *final(self) == (SPU { audio_buffer: final(self).audio_buffer, ..*old(self) }),
    {
        if self.audio_buffer.len() < NUM_SAMPLES {
            self.audio_buffer.push(sample);
        }
    }

    /// The SPU after a write to a register that only stores its value.
    pub open spec fn with_register(self, address: usize, value: u16) -> SPU {
        if address == 0x1f801d80 {
            SPU { main_volume_left: value, ..self }
        } else if address == 0x1f801d82 {
            SPU { main_volume_right: value, ..self }
        } else if address == 0x1f801d84 {
            SPU { reverb_volume: (value, self.reverb_volume.1), ..self }
        } else if address == 0x1f801d86 {
            SPU { reverb_volume: (self.reverb_volume.0, value), ..self }
        } else if address == 0x1f801d88 {
            SPU { keyon: (self.keyon & 0xffff0000) | value as u32, ..self }
        } else if address == 0x1f801d8a {
            SPU { keyon: (self.keyon & 0xffff) | ((value as u32) << 16u32), ..self }
        } else if address == 0x1f801d8c {
            SPU { keyoff: (self.keyoff & 0xffff0000) | value as u32, ..self }
        } else if address == 0x1f801d8e {
            SPU { keyoff: (self.keyoff & 0xffff) | ((value as u32) << 16u32), ..self }
        } else if address == 0x1f801d90 {
            SPU { sound_modulation: (self.sound_modulation & 0xffff000) | value as u32, ..self }
        } else if address == 0x1f801d92 {
            SPU { sound_modulation: (self.sound_modulation & 0xffff) | ((value as u32) << 16u32), ..self }
        } else if address == 0x1f801d94 {
            SPU { noise_enable: (self.noise_enable & 0xffff000) | value as u32, ..self }
        } else if address == 0x1f801d96 {
            SPU { noise_enable: (self.noise_enable & 0xffff) | ((value as u32) << 16u32), ..self }
        } else if address == 0x1f801d98 {
            SPU { echo_on: (self.echo_on & 0xffff000) | value as u32, ..self }
        } else if address == 0x1f801d9a {
            SPU { echo_on: (self.echo_on & 0xffff) | ((value as u32) << 16u32), ..self }
        } else if address == 0x1f801dac {
            SPU { sound_ram_transfer_type: value, ..self }
        } else if address == 0x1f801db0 {
            SPU { cd_volume: (value, self.cd_volume.1), ..self }
        } else if address == 0x1f801db2 {
            SPU { cd_volume: (self.cd_volume.0, value), ..self }
        } else if address == 0x1f801db4 {
            SPU { external_volume: (value, self.external_volume.1), ..self }
        } else if address == 0x1f801db6 {
            SPU { external_volume: (self.external_volume.0, value), ..self }
        } else {
            SPU { reverb: self.reverb.written(address, value), ..self }
        }
    }

    /// The value the CPU reads from register `address`.
    pub open spec fn register_value(self, address: usize) -> u16 {
        if is_voice_address(address) {
            self.voices@[voice_index(address)].spec_read(address & 0xf)
        } else if address == 0x1f801d84 {
            self.reverb_volume.0
        } else if address == 0x1f801d86 {
            self.reverb_volume.1
        } else if address == 0x1f801d88 {
            self.keyon as u16
        } else if address == 0x1f801d8a {
            (self.keyon >> 16u32) as u16
        } else if address == 0x1f801d8c {
            self.keyoff as u16
        } else if address == 0x1f801d8e {
            (self.keyoff >> 16u32) as u16
        } else if address == 0x1f801d90 {
            self.sound_modulation as u16
        } else if address == 0x1f801d92 {
            (self.sound_modulation >> 16u32) as u16
        } else if address == 0x1f801d94 {
            self.noise_enable as u16
        } else if address == 0x1f801d96 {
            (self.noise_enable >> 16u32) as u16
        } else if address == 0x1f801d98 {
            self.echo_on as u16
        } else if address == 0x1f801d9a {
            (self.echo_on >> 16u32) as u16
        } else if address == 0x1f801da6 {
            (self.sound_ram_address / 8) as u16
        } else if address == 0x1f801daa {
            self.spucnt.bits
        } else if address == 0x1f801dac {
            self.sound_ram_transfer_type
        } else if address == 0x1f801dae {
            self.spustat.bits
        } else if address == 0x1f801db8 {
            self.current_volume.0
        } else {
            self.current_volume.1
        }
    }

    /// A read of an SPU register.
    pub fn read16(&self, address: usize) -> (r: u16)
        requires
            self.wf(),
            is_readable(address),
        ensures
            r == self.register_value(address),
    {
        if 0x1f801c00 <= address && address <= 0x1f801d7f {
            proof {
                lemma_voice_address(address);
            }
            self.read_voices(address)
        } else if address == 0x1f801d84 {
            self.reverb_volume.0
        } else if address == 0x1f801d86 {
            self.reverb_volume.1
        } else if address == 0x1f801d88 {
            self.keyon as u16
        } else if address == 0x1f801d8a {
            (self.keyon >> 16) as u16
        } else if address == 0x1f801d8c {
            self.keyoff as u16
        } else if address == 0x1f801d8e {
            (self.keyoff >> 16) as u16
        } else if address == 0x1f801d90 {
            self.sound_modulation as u16
        } else if address == 0x1f801d92 {
            (self.sound_modulation >> 16) as u16
        } else if address == 0x1f801d94 {
            self.noise_enable as u16
        } else if address == 0x1f801d96 {
            (self.noise_enable >> 16) as u16
        } else if address == 0x1f801d98 {
            self.echo_on as u16
        } else if address == 0x1f801d9a {
            (self.echo_on >> 16) as u16
        } else if address == 0x1f801da6 {
            (self.sound_ram_address / 8) as u16
        } else if address == 0x1f801daa {
            self.spucnt.bits()
        } else if address == 0x1f801dac {
            self.sound_ram_transfer_type
        } else if address == 0x1f801dae {
            self.read_stat()
        } else if address == 0x1f801db8 {
            self.current_volume.0
        } else {
            self.current_volume.1
        }
    }

    /// Applies the pending key off and key on requests to the voices they name and clears
    /// them; a key on also clears the voice's loop-end flag in ENDX.
    pub fn update_keystatus(&mut self)
        requires
            old(self).wf(),
        ensures
            final(self).wf(),
            old(self).keyoff == 0 && old(self).keyon == 0 ==> *final(self) == *old(self),
            old(self).keyoff != 0 || old(self).keyon != 0 ==> {
                &&& final(self).voices@ == Seq::new(
                    24,
                    |i: int| keyed(old(self).voices@[i], bit(old(self).keyoff, i), bit(old(self).keyon, i)),
                )
                &&& *final(self) == (SPU {
                    voices: final(self).voices,
                    endx: old(self).endx & !(old(self).keyon & 0xffffff),
                    keyoff: 0,
                    keyon: 0,
                    ..*old(self)
                })
            },
    {
        if self.keyoff != 0 || self.keyon != 0 {
            let ghost s0 = *self;
            let mut i: u32 = 0;
            proof {
                lemma_key_bits(s0.endx, s0.keyon, 0);
            }
            while i < 24
                invariant
                    i <= 24,
                    s0.wf(),
                    self.voices@.len() == 24,
                    forall|j: int| #![trigger self.voices@[j]] 0 <= j < 24 ==> self.voices@[j].wf(),
                    forall|j: int| #![trigger self.voices@[j]] 0 <= j < i ==> self.voices@[j] == keyed(
                        s0.voices@[j],
                        bit(s0.keyoff, j),
                        bit(s0.keyon, j),
                    ),
                    forall|j: int| #![trigger self.voices@[j]] i <= j < 24 ==> self.voices@[j] == s0.voices@[j],
                    self.endx == s0.endx & !(s0.keyon & !(0xffffffffu32 << i)),
                    *self == (SPU { voices: self.voices, endx: self.endx, ..s0 }),
                decreases 24 - i,
            {
                proof {
                    lemma_key_bits(s0.endx, s0.keyon, i);
                }
                let mut v = self.voices[i as usize];
                if (self.keyoff >> i) & 1 == 1 {
                    v.update_keyoff();
                }
                if (self.keyon >> i) & 1 == 1 {
                    self.endx = self.endx & !(1u32 << i);
                    v.update_keyon();
                }
                self.voices.set(i as usize, v);
                i = i + 1;
            }
            proof {
                lemma_key_bits(s0.endx, s0.keyon, 0);
                assert(self.voices@ =~= Seq::new(
                    24,
                    |i: int| keyed(s0.voices@[i], bit(s0.keyoff, i), bit(s0.keyon, i)),
                ));
            }
            self.keyoff = 0;
            self.keyon = 0;
        }
    }

    /// How many halfwords a transfer moves: a DMA read fills the FIFO, every other mode
    /// drains it into sound RAM.
    pub open spec fn transfer_length(self) -> nat {
        let len = self.sample_fifo@.len();
        if spec_transfer_mode(self.spucnt.bits) == SoundRamTransferMode::DMARead {
            if len < FIFO_SIZE { (FIFO_SIZE - len) as nat } else { 0 }
        } else {
            len
        }
    }

    /// Whether the transfer stays inside sound RAM.
    pub open spec fn transfer_fits(self) -> bool {
        self.current_ram_address + 2 * self.transfer_length() <= SOUND_RAM_SIZE
    }

    /// `new` and the interrupt bits `ir1` are what a transfer leaves of `self` and `ir0`: a
    /// DMA read appends sound RAM from the transfer address to the FIFO until it is full;
    /// any other mode writes the FIFO to sound RAM, last entry first. The transfer address
    /// advances past what was moved; reaching the IRQ address while the interrupt is armed
    /// raises it; the DMA request bits are recomputed after each step and the busy flag
    /// is cleared.
    pub open spec fn transferred(self, new: SPU, ir0: u32, ir1: u32) -> bool {
        let mode = spec_transfer_mode(self.spucnt.bits);
        let n = self.transfer_length();
        let a0 = self.current_ram_address as int;
        let fired = self.irq_triggerable() && reached(self.irq_address, a0, n);
        let stat1 = if fired { self.spustat.bits | SpuStatRegister::IRQ9_FLAG } else { self.spustat.bits };
        let final_len: nat = if mode == SoundRamTransferMode::DMARead { FIFO_SIZE as nat } else { 0 };
        let stat2 = if n > 0 { dma_requested(stat1, mode, final_len) } else { stat1 };
        &&& new == (SPU {
            sample_fifo: new.sample_fifo,
            sound_ram: new.sound_ram,
            current_ram_address: (a0 + 2 * n) as u32,
            spustat: SpuStatRegister { bits: stat2 & !SpuStatRegister::DMA_TRANSFER_BUSY },
            ..self
        })
        &&& ir1 == if fired { ir0 | InterruptRegister::SPU } else { ir0 }
        &&& if mode == SoundRamTransferMode::DMARead {
            &&& new.sample_fifo@ == self.sample_fifo@ + read_run(self.sound_ram.ram@, a0, n)
            &&& new.sound_ram == self.sound_ram
        } else {
            &&& new.sample_fifo@.len() == 0
            &&& new.sound_ram.ram@ == written_run(self.sound_ram.ram@, a0, self.sample_fifo@.reverse())
        }
    }

    /// Moves data between the FIFO and sound RAM as the transfer mode says.
    pub fn execute_transfer(&mut self, interrupt_register: &mut InterruptRegister)
        requires
            old(self).wf(),
            old(self).transfer_fits(),
        ensures
            final(self).wf(),
            old(self).transferred(*final(self), old(interrupt_register).bits, final(interrupt_register).bits),
    {
        let ghost s0 = *self;
        let ghost ir0 = interrupt_register.bits;
        let ghost n = s0.transfer_length();
        let ghost a0 = s0.current_ram_address as int;
        let ghost len0 = s0.sample_fifo@.len();
        let ghost mode = spec_transfer_mode(s0.spucnt.bits);
        let ghost trig0 = s0.irq_triggerable();
        let ghost mut k: nat = 0;
        let ghost mut fired: bool = false;
        if self.spucnt.sound_ram_transfer_mode() == SoundRamTransferMode::DMARead {
            while self.sample_fifo.len() < FIFO_SIZE
                invariant
                    s0.wf(),
                    s0.transfer_fits(),
                    trig0 == s0.irq_triggerable(),
                    mode == spec_transfer_mode(s0.spucnt.bits),
                    mode == SoundRamTransferMode::DMARead,
                    n == s0.transfer_length(),
                    n == (if len0 < FIFO_SIZE { (FIFO_SIZE - len0) as nat } else { 0nat }),
                    k <= n,
                    len0 + k <= FIFO_SIZE || k == 0,
                    self.sample_fifo@ == s0.sample_fifo@ + read_run(s0.sound_ram.ram@, a0, k),
                    self.sample_fifo@.len() == len0 + k,
                    len0 == s0.sample_fifo@.len(),
                    a0 == s0.current_ram_address,
                    self.sound_ram.wf(),
                    self.current_ram_address == a0 + 2 * k,
                    fired == (trig0 && reached(s0.irq_address, a0, k)),
                    self.spustat.bits == if k == 0 {
                        s0.spustat.bits
                    } else {
                        dma_requested(
                            if fired { s0.spustat.bits | 0x40 } else { s0.spustat.bits },
                            mode,
                            len0 + k,
                        )
                    },
                    self.spustat.bits & 0x40 == if fired && k > 0 { 0x40 } else { s0.spustat.bits & 0x40 },
                    !fired || k > 0,
                    interrupt_register.bits == if fired { ir0 | InterruptRegister::SPU } else { ir0 },
                    *self == (SPU {
                        sample_fifo: self.sample_fifo,
                        current_ram_address: self.current_ram_address,
                        spustat: self.spustat,
                        ..s0
                    }),
                decreases FIFO_SIZE - self.sample_fifo@.len(),
            {
                let value = self.sound_ram.read16(self.current_ram_address as usize);
                self.current_ram_address = self.current_ram_address + 2;
                self.sample_fifo.push_back(value);
                let ghost before = self.spustat.bits;
                let hit = self.is_irq_triggerable() && self.current_ram_address == self.irq_address;
                if hit {
                    interrupt_register.insert(InterruptRegister::SPU);
                    self.spustat.insert(SpuStatRegister::IRQ9_FLAG);
                }
                self.update_dma_request();
                proof {
                    lemma_stat_step(s0.spustat.bits, before, fired, hit, k == 0, request_bits(mode, len0 + k), request_bits(mode, len0 + k + 1));
                    assert(self.sample_fifo@ =~= s0.sample_fifo@ + read_run(s0.sound_ram.ram@, a0, k + 1));
                    assert(reached(s0.irq_address, a0, (k + 1) as nat) == (reached(s0.irq_address, a0, k) || a0 + 2 * (k + 1) == s0.irq_address));
                    fired = fired || hit;
                    k = k + 1;
                }
            }
            self.spustat.remove(SpuStatRegister::DMA_TRANSFER_BUSY);
        } else {
            while self.sample_fifo.len() > 0
                invariant
                    s0.wf(),
                    s0.transfer_fits(),
                    trig0 == s0.irq_triggerable(),
                    mode == spec_transfer_mode(s0.spucnt.bits),
                    mode != SoundRamTransferMode::DMARead,
                    n == s0.transfer_length(),
                    n == len0,
                    k <= n,
                    self.sound_ram.wf(),
                    len0 == s0.sample_fifo@.len(),
                    a0 == s0.current_ram_address,
                    self.sample_fifo@.len() == len0 - k,
                    self.sample_fifo@ == s0.sample_fifo@.subrange(0, len0 - k),
                    self.sound_ram.ram@ == written_run(s0.sound_ram.ram@, a0, s0.sample_fifo@.reverse().take(k as int)),
                    self.current_ram_address == a0 + 2 * k,
                    fired == (trig0 && reached(s0.irq_address, a0, k)),
                    self.spustat.bits == if k == 0 {
                        s0.spustat.bits
                    } else {
                        dma_requested(
                            if fired { s0.spustat.bits | 0x40 } else { s0.spustat.bits },
                            mode,
                            (len0 - k) as nat,
                        )
                    },
                    self.spustat.bits & 0x40 == if fired && k > 0 { 0x40 } else { s0.spustat.bits & 0x40 },
                    !fired || k > 0,
                    interrupt_register.bits == if fired { ir0 | InterruptRegister::SPU } else { ir0 },
                    *self == (SPU {
                        sample_fifo: self.sample_fifo,
                        sound_ram: self.sound_ram,
                        current_ram_address: self.current_ram_address,
                        spustat: self.spustat,
                        ..s0
                    }),
                decreases self.sample_fifo@.len(),
            {
                proof {
                    assert(s0.sample_fifo@.reverse().take((k + 1) as int).drop_last() =~= s0.sample_fifo@.reverse().take(k as int));
                    assert((a0 + 2 * k) % (SOUND_RAM_SIZE as int) == a0 + 2 * k);
                }
                let ghost before = self.spustat.bits;
                let value = self.sample_fifo.pop_back().unwrap();
                self.sound_ram.write16(self.current_ram_address as usize, value);
                self.current_ram_address = self.current_ram_address + 2;
                let hit = self.is_irq_triggerable() && self.irq_address == self.current_ram_address;
                if hit {
                    interrupt_register.insert(InterruptRegister::SPU);
                    self.spustat.insert(SpuStatRegister::IRQ9_FLAG);
                }
                self.update_dma_request();
                proof {
                    lemma_stat_step(s0.spustat.bits, before, fired, hit, k == 0, request_bits(mode, (len0 - k) as nat), request_bits(mode, (len0 - k - 1) as nat));
                    assert(reached(s0.irq_address, a0, (k + 1) as nat) == (reached(s0.irq_address, a0, k) || a0 + 2 * (k + 1) == s0.irq_address));
                    fired = fired || hit;
                    k = k + 1;
                }
            }
            proof {
                assert(s0.sample_fifo@.reverse().take(len0 as int) =~= s0.sample_fifo@.reverse());
            }
            self.spustat.remove(SpuStatRegister::DMA_TRANSFER_BUSY);
        }
    }

    /// Whether a manual write first drains the FIFO into sound RAM.
    pub open spec fn flushes_before_write(self) -> bool {
        let mode = spec_transfer_mode(self.spucnt.bits);
        &&& self.sample_fifo@.len() > 0
        &&& mode != SoundRamTransferMode::DMARead
        &&& mode != SoundRamTransferMode::Stop
    }

    /// Whether a manual write, with the drain before it, stays inside sound RAM.
    pub open spec fn manual_write_fits(self) -> bool {
        if self.flushes_before_write() {
            self.current_ram_address + 2 * self.sample_fifo@.len() + 2 <= SOUND_RAM_SIZE
        } else {
            self.current_ram_address + 2 <= SOUND_RAM_SIZE
        }
    }

    /// `new` and `ir1` are what a manual write of `value` leaves of `self` and `ir0`: the
    /// FIFO is drained first when the mode writes, then `value` goes to the transfer
    /// address, which advances by a halfword; reaching the IRQ address while the
    /// interrupt is armed raises it.
    pub open spec fn manual_written(self, new: SPU, value: u16, ir0: u32, ir1: u32) -> bool {
        let flush = self.flushes_before_write();
        let n: nat = if flush { self.sample_fifo@.len() } else { 0 };
        let a0 = self.current_ram_address as int;
        let a1 = a0 + 2 * n;
        let fired1 = flush && self.irq_triggerable() && reached(self.irq_address, a0, n);
        let stat0 = self.spustat.bits;
        let stat1 = if flush {
            dma_requested(
                if fired1 { stat0 | 0x40 } else { stat0 },
                spec_transfer_mode(self.spucnt.bits),
                0,
            ) & !SpuStatRegister::DMA_TRANSFER_BUSY
        } else {
            stat0
        };
        let fired2 = spec_irq_triggerable(self.spucnt.bits, stat1) && self.irq_address == a1 + 2;
        let irm = if fired1 { ir0 | InterruptRegister::SPU } else { ir0 };
        &&& new == (SPU {
            sample_fifo: new.sample_fifo,
            sound_ram: new.sound_ram,
            current_ram_address: (a1 + 2) as u32,
            spustat: SpuStatRegister { bits: if fired2 { stat1 | 0x40 } else { stat1 } },
            ..self
        })
        &&& if flush { new.sample_fifo@.len() == 0 } else { new.sample_fifo@ == self.sample_fifo@ }
        &&& new.sound_ram.ram@ == spec_write16(
            if flush { written_run(self.sound_ram.ram@, a0, self.sample_fifo@.reverse()) } else { self.sound_ram.ram@ },
            a1,
            value,
        )
        &&& ir1 == if fired2 { irm | InterruptRegister::SPU } else { irm }
    }

    /// A halfword written by the CPU to the sound RAM data port.
    pub fn manual_transfer_write(&mut self, value: u16, interrupt_register: &mut InterruptRegister)
        requires
            old(self).wf(),
            old(self).manual_write_fits(),
        ensures
            final(self).wf(),
            old(self).manual_written(*final(self), value, old(interrupt_register).bits, final(interrupt_register).bits),
    {
        let sound_transfer_mode = self.spucnt.sound_ram_transfer_mode();
        if self.sample_fifo.len() != 0 && sound_transfer_mode != SoundRamTransferMode::DMARead
            && sound_transfer_mode != SoundRamTransferMode::Stop
        {
            self.execute_transfer(interrupt_register);
        }
        self.sound_ram.write16(self.current_ram_address as usize, value);
        self.current_ram_address = self.current_ram_address + 2;
        if self.is_irq_triggerable() && self.current_ram_address == self.irq_address {
            interrupt_register.insert(InterruptRegister::SPU);
            self.spustat.insert(SpuStatRegister::IRQ9_FLAG);
        }
    }

    /// `new` and `ir1` are what writing `value` to SPUCNT leaves of `self` and `ir0`: in
    /// manual write mode the FIFO is first written out to sound RAM in order, wrapping at
    /// its end, raising the interrupt at the IRQ address; SPUSTAT takes the new mode bits;
    /// disabling the interrupt clears its flag, enabling it raises it when the transfer
    /// address is the IRQ address; the DMA request bits follow the new mode.
    pub open spec fn control_written(self, new: SPU, value: u16, ir0: u32, ir1: u32) -> bool {
        let flush = spec_transfer_mode(value) == SoundRamTransferMode::ManualWrite;
        let vals = self.sample_fifo@;
        let n: nat = if flush { vals.len() } else { 0 };
        let a0 = self.current_ram_address as int;
        let stat0 = self.spustat.bits;
        let fired1 = spec_irq_triggerable(value, stat0) && starts_at(self.irq_address, a0, n);
        let stat1 = if fired1 { stat0 | 0x40 } else { stat0 };
        let a_end = if n > 0 { (a0 + 2 * n) % (SOUND_RAM_SIZE as int) } else { a0 };
        let stat2 = (stat1 & !0x3fu16) | (value & 0x3f);
        let fired2 = value & 0x40 == 0x40 && spec_irq_triggerable(value, stat2) && self.irq_address == a_end;
        let stat3 = if value & 0x40 != 0x40 {
            stat2 & !0x40u16
        } else if fired2 {
            stat2 | 0x40
        } else {
            stat2
        };
        let irm = if fired1 { ir0 | InterruptRegister::SPU } else { ir0 };
        &&& new == (SPU {
            spucnt: SpuControlRegister { bits: value },
            spustat: SpuStatRegister {
                bits: dma_requested(stat3, spec_transfer_mode(value), if flush { 0 } else { vals.len() }),
            },
            sample_fifo: new.sample_fifo,
            sound_ram: new.sound_ram,
            current_ram_address: a_end as u32,
            ..self
        })
        &&& if flush { new.sample_fifo@.len() == 0 } else { new.sample_fifo@ == vals }
        &&& new.sound_ram.ram@ == if flush { written_run(self.sound_ram.ram@, a0, vals) } else { self.sound_ram.ram@ }
        &&& ir1 == if fired2 { irm | InterruptRegister::SPU } else { irm }
    }

    /// A write of SPUCNT.
    fn write_control(&mut self, value: u16, interrupt_register: &mut InterruptRegister)
        requires
            old(self).wf(),
            spec_transfer_mode(value) == SoundRamTransferMode::ManualWrite && old(self).sample_fifo@.len() > 0
                ==> old(self).current_ram_address < SOUND_RAM_SIZE,
        ensures
            final(self).wf(),
            old(self).control_written(*final(self), value, old(interrupt_register).bits, final(interrupt_register).bits),
    {
        let ghost s0 = *self;
        let ghost ir0 = interrupt_register.bits;
        self.spucnt = SpuControlRegister::from_bits_retain(value);
        let ghost s1 = *self;
        if self.spucnt.sound_ram_transfer_mode() == SoundRamTransferMode::ManualWrite {
            let ghost vals = s0.sample_fifo@;
            let ghost len0 = vals.len();
            let ghost a0 = s0.current_ram_address as int;
            let ghost trig = spec_irq_triggerable(value, s0.spustat.bits);
            let ghost mut k: nat = 0;
            let ghost mut fired: bool = false;
            while self.sample_fifo.len() > 0
                invariant
                    s0.wf(),
                    s1 == (SPU { spucnt: SpuControlRegister { bits: value }, ..s0 }),
                    vals == s0.sample_fifo@,
                    len0 == vals.len(),
                    a0 == s0.current_ram_address,
                    trig == spec_irq_triggerable(value, s0.spustat.bits),
                    len0 > 0 ==> a0 < SOUND_RAM_SIZE,
                    k <= len0,
                    self.sample_fifo@ == vals.subrange(k as int, len0 as int),
                    self.sound_ram.wf(),
                    self.sound_ram.ram@ == written_run(s0.sound_ram.ram@, a0, vals.take(k as int)),
                    k == 0 ==> self.current_ram_address == a0,
                    k > 0 ==> self.current_ram_address == (a0 + 2 * k) % (SOUND_RAM_SIZE as int),
                    self.current_ram_address % 2 == 0,
                    self.current_ram_address <= SOUND_RAM_SIZE,
                    fired == (trig && starts_at(s0.irq_address, a0, k)),
                    self.spustat.bits == if fired { s0.spustat.bits | 0x40 } else { s0.spustat.bits },
                    interrupt_register.bits == if fired { ir0 | InterruptRegister::SPU } else { ir0 },
                    *self == (SPU {
                        sample_fifo: self.sample_fifo,
                        sound_ram: self.sound_ram,
                        current_ram_address: self.current_ram_address,
                        spustat: self.spustat,
                        ..s1
                    }),
                decreases self.sample_fifo@.len(),
            {
                let ghost c: int = self.current_ram_address as int;
                proof {
                    lemma_stat_bits(s0.spustat.bits, 0, 0, false);
                    if k > 0 {
                        assert(c < SOUND_RAM_SIZE);
                    }
                    assert(c % (SOUND_RAM_SIZE as int) == (a0 + 2 * k) % (SOUND_RAM_SIZE as int)) by {
                        if k == 0 {
                            assert(c % (SOUND_RAM_SIZE as int) == c);
                        } else {
                            vstd::arithmetic::div_mod::lemma_mod_twice(a0 + 2 * k, SOUND_RAM_SIZE as int);
                        }
                    }
                    assert(c % (SOUND_RAM_SIZE as int) == c);
                }
                let hit = self.current_ram_address == self.irq_address && self.is_irq_triggerable();
                if hit {
                    self.spustat.insert(SpuStatRegister::IRQ9_FLAG);
                    interrupt_register.insert(InterruptRegister::SPU);
                }
                let v = self.sample_fifo.pop_front().unwrap();
                self.sound_ram.write16(self.current_ram_address as usize, v);
                proof {
                    lemma_address_bits(0, 0, c as u32);
                    lemma_add_mod_noop(a0 + 2 * k, 2, SOUND_RAM_SIZE as int);
                    assert(vals.take((k + 1) as int).drop_last() =~= vals.take(k as int));
                    assert(vals.take((k + 1) as int).last() == v);
                    assert(self.sample_fifo@ =~= vals.subrange((k + 1) as int, len0 as int));
                    if c + 2 < SOUND_RAM_SIZE {
                        assert((c + 2) % (SOUND_RAM_SIZE as int) == c + 2);
                    } else {
                        assert((c + 2) % (SOUND_RAM_SIZE as int) == 0);
                    }
                    assert(starts_at(s0.irq_address, a0, (k + 1) as nat) == (starts_at(s0.irq_address, a0, k)
                        || (a0 + 2 * k) % (SOUND_RAM_SIZE as int) == s0.irq_address));
                    fired = fired || hit;
                    k = k + 1;
                }
                self.current_ram_address = (self.current_ram_address + 2) & 0x7_ffff;
            }
            proof {
                assert(vals.take(len0 as int) =~= vals);
            }
        }
        let mode = self.spucnt.bits() & 0x3f;
        self.spustat = SpuStatRegister::from_bits_retain((self.spustat.bits() & !0x3f) | mode);
        if !self.spucnt.contains(SpuControlRegister::IRQ9_ENABLE) {
            self.spustat.remove(SpuStatRegister::IRQ9_FLAG);
        } else if self.is_irq_triggerable() && self.irq_address == self.current_ram_address {
            self.spustat.insert(SpuStatRegister::IRQ9_FLAG);
            interrupt_register.insert(InterruptRegister::SPU);
        }
        self.update_dma_request();
    }

    /// `new` and `ir1` are what a write of `value` to register `address` leaves of `self`
    /// and `ir0`.
    pub open spec fn written16(self, new: SPU, address: usize, value: u16, ir0: u32, ir1: u32) -> bool {
        &&& is_voice_address(address) ==> {
            &&& new.voices@ == self.voices@.update(
                voice_index(address),
                self.voices@[voice_index(address)].written(address & 0xf, value),
            )
            &&& new == (SPU { voices: new.voices, ..self })
            &&& ir1 == ir0
        }
        &&& is_plain_register(address) ==> {
            &&& new == self.with_register(address, value)
            &&& ir1 == ir0
        }
        &&& address == 0x1f801da4 ==> ({
            let irq = (value as u32 * 8) as u32;
            let fired = self.irq_triggerable() && irq == self.current_ram_address;
            &&& new == (SPU {
                irq_address: irq,
                spustat: SpuStatRegister {
                    bits: if fired { self.spustat.bits | 0x40 } else { self.spustat.bits },
                },
                ..self
            })
            &&& ir1 == if fired {
                ir0 | InterruptRegister::SPU
            } else {
                ir0
            }
        })
        &&& address == 0x1f801da6 ==> ({
            let start = (value as u32 * 8) as u32;
            let fired = self.irq_triggerable() && self.irq_address == start;
            &&& new == (SPU {
                sound_ram_address: start,
                current_ram_address: start,
                spustat: SpuStatRegister {
                    bits: if fired { self.spustat.bits | 0x40 } else { self.spustat.bits },
                },
                ..self
            })
            &&& ir1 == if fired {
                ir0 | InterruptRegister::SPU
            } else {
                ir0
            }
        })
        &&& address == 0x1f801da8 ==> self.manual_written(
            new,
            value,
            ir0,
            ir1,
        )
        &&& address == 0x1f801daa ==> self.control_written(
            new,
            value,
            ir0,
            ir1,
        )
    }

    /// Whether the SPU takes a write of `value` to `address`: the register exists and the
    /// transfer that the write starts stays inside sound RAM.
    pub open spec fn accepts_write16(self, address: usize, value: u16) -> bool {
        &&& is_writable(address)
        &&& address == 0x1f801da8 ==> self.manual_write_fits()
        &&& address == 0x1f801daa && spec_transfer_mode(value) == SoundRamTransferMode::ManualWrite
            && self.sample_fifo@.len() > 0 ==> self.current_ram_address < SOUND_RAM_SIZE
    }

    /// Whether the SPU takes a write of `value` to `address`.
    pub fn check_write16(&self, address: usize, value: u16) -> (r: bool)
        requires
            self.wf(),
        ensures
            r == self.accepts_write16(address, value),
    {
        let writable = (0x1f801c00 <= address && address <= 0x1f801d7f && address % 2 == 0)
            || (0x1f801d80 <= address && address <= 0x1f801d9a && address % 2 == 0)
            || address == 0x1f801dac
            || (0x1f801db0 <= address && address <= 0x1f801db6 && address % 2 == 0)
            || address == 0x1f801da2
            || (0x1f801dc0 <= address && address <= 0x1f801dfe && address % 2 == 0)
            || (0x1f801da4 <= address && address <= 0x1f801daa && address % 2 == 0);
        if !writable {
            return false;
        }
        let len = self.sample_fifo.len();
        let current = self.current_ram_address as usize;
        let mode = self.spucnt.sound_ram_transfer_mode();
        if address == 0x1f801da8 {
            let flushes = len > 0 && mode != SoundRamTransferMode::DMARead && mode != SoundRamTransferMode::Stop;
            if flushes {
                len <= 0x40000 && current + 2 * len + 2 <= SOUND_RAM_SIZE
            } else {
                current + 2 <= SOUND_RAM_SIZE
            }
        } else if address == 0x1f801daa {
            let next = SpuControlRegister::from_bits_retain(value).sound_ram_transfer_mode();
            !(next == SoundRamTransferMode::ManualWrite && len > 0) || current < SOUND_RAM_SIZE
        } else {
            true
        }
    }

    /// Whether `address` is an SPU register that the CPU can read.
    pub fn check_read16(address: usize) -> (r: bool)
        ensures
            r == is_readable(address),
    {
        (0x1f801c00 <= address && address <= 0x1f801d7f && address % 2 == 0)
            || (0x1f801d84 <= address && address <= 0x1f801d9a && address % 2 == 0)
            || address == 0x1f801da6
            || (0x1f801daa <= address && address <= 0x1f801dae && address % 2 == 0)
            || address == 0x1f801db8
            || address == 0x1f801dba
    }

    /// A write of an SPU register: voice registers, volumes, key on/off and the other
    /// channel masks, the IRQ and transfer addresses, the sound RAM data port, SPUCNT, the
    /// transfer type and the reverb registers.
    #[verifier::rlimit(60)]
    pub fn write16(&mut self, address: usize, value: u16, interrupt_register: &mut InterruptRegister)
        requires
            old(self).wf(),
            old(self).accepts_write16(address, value),
        ensures
            final(self).wf(),
            old(self).written16(*final(self), address, value, old(interrupt_register).bits, final(interrupt_register).bits),
    {
        if 0x1f801c00 <= address && address <= 0x1f801d7f {
            proof {
                lemma_voice_address(address);
            }
            self.write_voices(address, value);
        } else if address == 0x1f801d80 {
            self.main_volume_left = value;
        } else if address == 0x1f801d82 {
            self.main_volume_right = value;
        } else if address == 0x1f801d84 {
            self.reverb_volume.0 = value;
        } else if address == 0x1f801d86 {
            self.reverb_volume.1 = value;
        } else if address == 0x1f801d88 {
            self.keyon = (self.keyon & 0xffff0000) | value as u32;
        } else if address == 0x1f801d8a {
            self.keyon = (self.keyon & 0xffff) | (value as u32) << 16;
        } else if address == 0x1f801d8c {
            self.keyoff = (self.keyoff & 0xffff0000) | value as u32;
        } else if address == 0x1f801d8e {
            self.keyoff = (self.keyoff & 0xffff) | (value as u32) << 16;
        } else if address == 0x1f801d90 {
            self.sound_modulation = (self.sound_modulation & 0xffff000) | value as u32;
        } else if address == 0x1f801d92 {
            self.sound_modulation = (self.sound_modulation & 0xffff) | (value as u32) << 16;
        } else if address == 0x1f801d94 {
            self.noise_enable = (self.noise_enable & 0xffff000) | value as u32;
        } else if address == 0x1f801d96 {
            self.noise_enable = (self.noise_enable & 0xffff) | (value as u32) << 16;
        } else if address == 0x1f801d98 {
            self.echo_on = (self.echo_on & 0xffff000) | value as u32;
        } else if address == 0x1f801d9a {
            self.echo_on = (self.echo_on & 0xffff) | (value as u32) << 16;
        } else if address == 0x1f801da4 {
            self.irq_address = value as u32 * 8;
            if self.is_irq_triggerable() && self.irq_address == self.current_ram_address {
                interrupt_register.insert(InterruptRegister::SPU);
                self.spustat.insert(SpuStatRegister::IRQ9_FLAG);
            }
        } else if address == 0x1f801da6 {
            self.sound_ram_address = value as u32 * 8;
            self.current_ram_address = self.sound_ram_address;
            if self.irq_address == self.current_ram_address && self.is_irq_triggerable() {
                self.spustat.insert(SpuStatRegister::IRQ9_FLAG);
                interrupt_register.insert(InterruptRegister::SPU);
            }
        } else if address == 0x1f801da8 {
            self.manual_transfer_write(value, interrupt_register);
        } else if address == 0x1f801daa {
            self.write_control(value, interrupt_register);
        } else if address == 0x1f801dac {
            self.sound_ram_transfer_type = value;
        } else if address == 0x1f801db0 {
            self.cd_volume.0 = value;
        } else if address == 0x1f801db2 {
            self.cd_volume.1 = value;
        } else if address == 0x1f801db4 {
            self.external_volume.0 = value;
        } else if address == 0x1f801db6 {
            self.external_volume.1 = value;
        } else {
            self.reverb.write16(address, value);
        }
    }

    /// Stores one sample into capture buffer `capture_index` at the current capture
    /// position, raising the SPU interrupt when that address is the IRQ address.
    pub fn write_to_capture(
        &mut self,
        capture_index: usize,
        volume: u16,
        interrupt_register: &mut InterruptRegister,
    )
        requires
            old(self).wf(),
            capture_index < 4,
        ensures
            final(self).wf(),
            ({
                let address = capture_index * CAPTURE_SIZE + old(self).capture_buffer_pos;
                let fired = old(self).irq_triggerable() && old(self).irq_address == address;
                &&& final(self).sound_ram.ram@ == spec_write16(old(self).sound_ram.ram@, address, volume)
                &&& *final(self) == (SPU {
                    sound_ram: final(self).sound_ram,
                    spustat: SpuStatRegister {
                        bits: if fired {
                            old(self).spustat.bits | SpuStatRegister::IRQ9_FLAG
                        } else {
                            old(self).spustat.bits
                        },
                    },
                    ..*old(self)
                })
                &&& final(interrupt_register).bits == if fired {
                    old(interrupt_register).bits | InterruptRegister::SPU
                } else {
                    old(interrupt_register).bits
                }
            }),
    {
        proof {
            lemma_address_bits(capture_index, self.capture_buffer_pos as usize, 0);
        }
        let ram_address = (capture_index * CAPTURE_SIZE) | self.capture_buffer_pos as usize;
        self.sound_ram.write16(ram_address, volume);
        if self.is_irq_triggerable() && self.irq_address == ram_address as u32 {
            interrupt_register.insert(InterruptRegister::SPU);
            self.spustat.insert(SpuStatRegister::IRQ9_FLAG);
        }
    }
}

} // verus!
