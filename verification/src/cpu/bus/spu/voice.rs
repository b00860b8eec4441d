use vstd::prelude::*;
use super::{clamp, spec_clamp, SoundRam, SOUND_RAM_SIZE};
use crate::cpu::bus::registers::interrupt_register::InterruptRegister;
use crate::bits::{lemma_u16_fields, lemma_bit15, lemma_sample_bits};

verus! {

pub const VOLUME_MIN: i32 = -0x8000;
pub const VOLUME_MAX: i32 = 0x7fff;

#[derive(Copy, Clone, PartialEq, Eq, Structural)]
pub enum EnvelopeMode {
    Linear,
    Exponential,
}

#[derive(Copy, Clone, PartialEq, Eq, Structural)]
pub enum EnvelopeDirection {
    Increase,
    Decrease,
}

#[derive(Copy, Clone, PartialEq, Eq, Structural)]
pub enum AdsrPhase {
    Attack,
    Sustain,
    Decay,
    Release,
    Idle,
}

/// A volume envelope: every time the counter passes 0x8000 the volume moves by a step.
#[derive(Copy, Clone)]
pub struct Envelope {
    pub counter: u32,
    pub increment: u16,
    pub step: i16,
    pub rate: u8,
    pub direction: EnvelopeDirection,
    pub mode: EnvelopeMode,
    pub invert_phase: bool,
    pub volume: i16,
}

impl Envelope {
    /// The counter stays below 0x8000 between ticks and the increment is at most 0x8000.
    pub open spec fn wf(&self) -> bool {
        self.counter < 0x8000 && self.increment <= 0x8000
    }

    /// The envelope after `reset`: counter cleared, the step (negated for an inverted phase
    /// unless decreasing exponentially) scaled up for fast rates, the increment scaled down
    /// for slow ones.
    pub open spec fn spec_reset(
        self,
        rate: u8,
        shift: i8,
        step: i8,
        rate_mask: u8,
        mode: EnvelopeMode,
        direction: EnvelopeDirection,
        invert: bool,
    ) -> Envelope {
        let decreasing = direction == EnvelopeDirection::Decrease;
        let inverted = invert && !(decreasing && mode == EnvelopeMode::Exponential);
        let s0: i16 = if inverted { (!step) as i16 } else { step as i16 };
        let s1: i16 = if rate < 44 { s0.wrapping_shl((11 - shift) as u32) } else { s0 };
        let inc1: u16 = if rate >= 48 { 0x8000u16.wrapping_shr((shift - 11) as u32) } else { 0x8000 };
        let inc2: u16 = if rate >= 48 && (rate & rate_mask) != rate_mask && inc1 < 1 { 1 } else { inc1 };
        Envelope {
            counter: 0,
            increment: inc2,
            step: s1,
            rate,
            direction,
            mode,
            invert_phase: invert,
            ..self
        }
    }

    /// The step and increment a tick uses: an exponential decrease scales the step by the
    /// volume; an exponential increase above 0x6000 slows down.
    pub open spec fn actual_step(&self) -> (i16, u16) {
        if self.mode == EnvelopeMode::Exponential {
            if self.direction == EnvelopeDirection::Decrease {
                ((((self.step as i32 * self.volume as i32) as i32) >> 15u32) as i16, self.increment)
            } else if self.volume >= 0x6000 {
                if self.rate < 40 {
                    (self.step >> 2u32, self.increment)
                } else if self.rate >= 44 {
                    (self.step, self.increment >> 2u16)
                } else {
                    (self.step >> 1u32, self.increment >> 1u16)
                }
            } else {
                (self.step, self.increment)
            }
        } else {
            (self.step, self.increment)
        }
    }

    /// One tick: the envelope afterwards and whether it goes on (it stops at its limit).
    pub open spec fn spec_tick(self) -> (Envelope, bool) {
        let (step, inc) = self.actual_step();
        let counter = self.counter + inc;
        if counter < 0x8000 {
            (Envelope { counter: counter as u32, ..self }, true)
        } else {
            let new_volume = self.volume as i32 + step as i32;
            if self.direction == EnvelopeDirection::Increase {
                let v = spec_clamp(new_volume as i32, VOLUME_MIN, VOLUME_MAX);
                (
                    Envelope { counter: 0, volume: v, ..self },
                    if self.step < 0 { v as i32 != VOLUME_MIN } else { v as i32 != VOLUME_MAX },
                )
            } else {
                let v: i16 = if self.invert_phase {
                    spec_clamp(new_volume as i32, VOLUME_MIN, 0)
                } else {
                    (if new_volume > 0 { new_volume } else { 0 }) as i16
                };
                (Envelope { counter: 0, volume: v, ..self }, v == 0)
            }
        }
    }

    /// A silent envelope with nothing to do.
    pub open spec fn new_spec() -> Envelope {
        Envelope {
            counter: 0,
            increment: 0,
            step: 0,
            rate: 0,
            direction: EnvelopeDirection::Decrease,
            mode: EnvelopeMode::Linear,
            invert_phase: false,
            volume: 0,
        }
    }

    pub fn new() -> (r: Self)
        ensures
            r.wf(),
            r == (Envelope {
                counter: 0,
                increment: 0,
                step: 0,
                rate: 0,
                direction: EnvelopeDirection::Decrease,
                mode: EnvelopeMode::Linear,
                invert_phase: false,
                volume: 0,
            }),
    {
        Self {
            counter: 0,
            increment: 0,
            step: 0,
            rate: 0,
            direction: EnvelopeDirection::Decrease,
            mode: EnvelopeMode::Linear,
            invert_phase: false,
            volume: 0,
        }
    }

    pub fn reset(
        &mut self,
        rate: u8,
        shift: i8,
        step: i8,
        rate_mask: u8,
        mode: EnvelopeMode,
        direction: EnvelopeDirection,
        invert: bool,
    )
        requires
            -0x80 <= 11 - shift <= 0x7f,
            -0x80 <= shift - 11 <= 0x7f,
        ensures
            final(self).wf(),
            *final(self) == old(self).spec_reset(rate, shift, step, rate_mask, mode, direction, invert),
    {
        self.counter = 0;
        self.increment = 0x8000;
        self.rate = rate;
        self.invert_phase = invert;
        self.direction = direction;
        let decreasing = direction == EnvelopeDirection::Decrease;
        let invert_phase = self.invert_phase && !(decreasing && mode == EnvelopeMode::Exponential);
        self.step = if invert_phase { (!step) as i16 } else { step as i16 };
        self.mode = mode;
        if rate < 44 {
            self.step = self.step.wrapping_shl((11 - shift) as u32);
        } else if rate >= 48 {
            self.increment = self.increment.wrapping_shr((shift - 11) as u32);
            if (rate & rate_mask) != rate_mask && self.increment < 1 {
                self.increment = 1;
            }
        }
        proof {
            lemma_u16_fields(0x8000u16, (shift - 11) as u32);
        }
    }

    /// Advances the envelope by one sample; returns whether it goes on.
    pub fn tick(&mut self) -> (r: bool)
        requires
            old(self).wf(),
        ensures
            final(self).wf(),
            (*final(self), r) == old(self).spec_tick(),
    {
        let (actual_step, actual_increment): (i16, u16) = if self.mode == EnvelopeMode::Exponential {
            if self.direction == EnvelopeDirection::Decrease {
                let a = self.step as i32;
                let b = self.volume as i32;
                assert(-0x4000_0000 <= a * b <= 0x4000_0000) by (nonlinear_arith)
                    requires -0x8000 <= a <= 0x7fff, -0x8000 <= b <= 0x7fff;
                let product = a * b;
                ((product >> 15) as i16, self.increment)
            } else if self.volume >= 0x6000 {
                if self.rate < 40 {
                    (self.step >> 2, self.increment)
                } else if self.rate >= 44 {
                    (self.step, self.increment >> 2)
                } else {
                    (self.step >> 1, self.increment >> 1)
                }
            } else {
                (self.step, self.increment)
            }
        } else {
            (self.step, self.increment)
        };
        proof {
            lemma_u16_fields(self.increment, 0);
        }
        let counter = self.counter + actual_increment as u32;
        proof {
            lemma_bit15(counter);
        }
        self.counter = counter;
        if (self.counter >> 15) & 1 == 0 {
            return true;
        }
        self.counter = 0;
        let new_volume = self.volume as i32 + actual_step as i32;
        if self.direction == EnvelopeDirection::Increase {
            self.volume = clamp(new_volume, VOLUME_MIN, VOLUME_MAX);
            if self.step < 0 {
                self.volume as i32 != VOLUME_MIN
            } else {
                self.volume as i32 != VOLUME_MAX
            }
        } else {
            if self.invert_phase {
                self.volume = clamp(new_volume, VOLUME_MIN, 0);
            } else {
                self.volume = (if new_volume > 0 { new_volume } else { 0 }) as i16;
            }
            self.volume == 0
        }
    }
}


/// A voice's attack-decay-sustain-release envelope.
#[derive(Copy, Clone)]
pub struct Adsr {
    pub phase: AdsrPhase,
    pub attack_mode: EnvelopeMode,
    pub attack_step: i8,
    pub attack_shift: u8,
    pub attack_rate: u8,
    pub decay_shift: u8,
    pub sustain_level: u16,
    pub sustain_mode: EnvelopeMode,
    pub sustain_direction: EnvelopeDirection,
    pub sustain_step: i8,
    pub sustain_shift: u8,
    pub sustain_rate: u8,
    pub release_mode: EnvelopeMode,
    pub release_shift: u8,
    pub value: u32,
    pub current_target: i16,
    pub envelope: Envelope,
}

pub open spec fn mode_bit(b: u16) -> EnvelopeMode {
    if b == 0 { EnvelopeMode::Linear } else { EnvelopeMode::Exponential }
}

impl Adsr {
    pub open spec fn wf(&self) -> bool {
        &&& self.envelope.wf()
        &&& self.attack_shift <= 0x1f
        &&& self.decay_shift <= 0x1f
        &&& self.sustain_shift <= 0x1f
        &&& self.release_shift <= 0x1f
    }

    /// The register after a write of the low half (attack, decay and sustain level).
    pub open spec fn written_lower(self, value: u16) -> Adsr {
        Adsr {
            value: (self.value & 0xffff0000) | value as u32,
            sustain_level: (((value & 0xf) + 1) * 0x800) as u16,
            decay_shift: ((value >> 4u16) & 0xf) as u8,
            attack_step: (7 - ((value >> 8u16) & 0x3)) as i8,
            attack_shift: ((value >> 10u16) & 0x1f) as u8,
            attack_rate: ((value >> 8u16) & 0x7f) as u8,
            attack_mode: mode_bit(value >> 15u16),
            ..self
        }
    }

    /// The register after a write of the high half (sustain and release).
    pub open spec fn written_upper(self, value: u16) -> Adsr {
        let direction = if (value >> 14u16) & 1 == 0 {
            EnvelopeDirection::Increase
        } else {
            EnvelopeDirection::Decrease
        };
        Adsr {
            value: (self.value & 0xffff) | ((value as u32) << 16u32),
            release_shift: (value & 0x1f) as u8,
            release_mode: mode_bit((value >> 5u16) & 1),
            sustain_direction: direction,
            sustain_step: if direction == EnvelopeDirection::Increase {
                (7 - ((value >> 6u16) & 0x3)) as i8
            } else {
                (-8 + ((value >> 6u16) & 0x3)) as i8
            },
            sustain_rate: ((value >> 6u16) & 0x7f) as u8,
            sustain_shift: ((value >> 8u16) & 0x1f) as u8,
            sustain_mode: mode_bit(value >> 15u16),
            ..self
        }
    }

    /// The envelope and target the current phase starts: attack rises to 0x7fff, decay falls
    /// exponentially to the sustain level, sustain runs until key off, release falls to 0.
    pub open spec fn phase_started(self) -> Adsr {
        match self.phase {
            AdsrPhase::Attack => Adsr {
                current_target: 0x7fff,
                envelope: self.envelope.spec_reset(self.attack_rate, self.attack_shift as i8, self.attack_step,
                    0x7f, self.attack_mode, EnvelopeDirection::Increase, false),
                ..self
            },
            AdsrPhase::Decay => Adsr {
                current_target: self.sustain_level as i16,
                envelope: self.envelope.spec_reset(((self.decay_shift as u32) << 2u32) as u8, self.decay_shift as i8, -8i8,
                    0x7c, EnvelopeMode::Exponential, EnvelopeDirection::Decrease, false),
                ..self
            },
            AdsrPhase::Sustain => Adsr {
                current_target: -1i16,
                envelope: self.envelope.spec_reset(self.sustain_rate, self.sustain_shift as i8,
                    if self.sustain_direction == EnvelopeDirection::Decrease { !self.sustain_step } else { self.sustain_step },
                    0x7f, self.sustain_mode, self.sustain_direction, false),
                ..self
            },
            AdsrPhase::Release => Adsr {
                current_target: 0,
                envelope: self.envelope.spec_reset(((self.release_shift as u32) << 2u32) as u8, self.release_shift as i8, -8i8,
                    0x7c, self.release_mode, EnvelopeDirection::Decrease, false),
                ..self
            },
            AdsrPhase::Idle => Adsr {
                current_target: 0,
                envelope: self.envelope.spec_reset(0, 0, 0, 0, EnvelopeMode::Linear, EnvelopeDirection::Increase, false),
                ..self
            },
        }
    }

    /// Whether the envelope has reached the current phase's target.
    pub open spec fn reached_target(self) -> bool {
        match self.phase {
            AdsrPhase::Attack | AdsrPhase::Idle => self.envelope.volume >= self.current_target,
            AdsrPhase::Decay | AdsrPhase::Release => self.envelope.volume <= self.current_target,
            AdsrPhase::Sustain => if self.sustain_direction == EnvelopeDirection::Decrease {
                self.envelope.volume <= self.current_target
            } else {
                self.envelope.volume >= self.current_target
            },
        }
    }

    /// The phase that follows the current one once its target is reached.
    pub open spec fn next_phase(self) -> AdsrPhase {
        match self.phase {
            AdsrPhase::Attack => AdsrPhase::Decay,
            AdsrPhase::Decay => AdsrPhase::Sustain,
            AdsrPhase::Sustain => AdsrPhase::Sustain,
            AdsrPhase::Idle => AdsrPhase::Idle,
            AdsrPhase::Release => AdsrPhase::Idle,
        }
    }

    /// One sample: the envelope ticks; once it reaches the phase's target the next phase
    /// starts. Sustain has no target.
    pub open spec fn spec_tick(self) -> Adsr {
        let a = if self.envelope.increment > 0 { Adsr { envelope: self.envelope.spec_tick().0, ..self } } else { self };
        if a.current_target < 0 {
            a
        } else if a.reached_target() {
            (Adsr { phase: a.next_phase(), ..a }).phase_started()
        } else {
            a
        }
    }

    pub fn new() -> (r: Self)
        ensures
            r.wf(),
            r.phase == AdsrPhase::Idle,
            r.value == 0,
            r.current_target == 0,
            r.envelope == Envelope::new_spec(),
    {
        Self {
            attack_mode: EnvelopeMode::Linear,
            attack_step: 0,
            attack_rate: 0,
            decay_shift: 0,
            sustain_direction: EnvelopeDirection::Decrease,
            sustain_level: 0,
            sustain_mode: EnvelopeMode::Linear,
            sustain_step: 0,
            sustain_rate: 0,
            release_mode: EnvelopeMode::Linear,
            release_shift: 0,
            phase: AdsrPhase::Idle,
            value: 0,
            current_target: 0,
            attack_shift: 0,
            sustain_shift: 0,
            envelope: Envelope::new(),
        }
    }

    /// A write of the low 16 bits (attack, decay shift and sustain level).
    pub fn write_lower(&mut self, value: u16)
        requires
            old(self).wf(),
        ensures
            final(self).wf(),
            *final(self) == old(self).written_lower(value),
    {
        self.value = (self.value & 0xffff0000) | value as u32;
        proof {
            lemma_u16_fields(value, 0);
        }
        self.sustain_level = ((value & 0xf) + 1) * 0x800;
        self.decay_shift = ((value >> 4) & 0xf) as u8;
        self.attack_step = (7 - ((value >> 8) & 0x3)) as i8;
        self.attack_shift = ((value >> 10) & 0x1f) as u8;
        self.attack_rate = ((value >> 8) & 0x7f) as u8;
        self.attack_mode = if value >> 15 == 0 { EnvelopeMode::Linear } else { EnvelopeMode::Exponential };
    }

    /// A write of the high 16 bits (sustain and release).
    pub fn write_upper(&mut self, value: u16)
        requires
            old(self).wf(),
        ensures
            final(self).wf(),
            *final(self) == old(self).written_upper(value),
    {
        proof {
            lemma_u16_fields(value, 0);
        }
        self.value = (self.value & 0xffff) | (value as u32) << 16;
        self.release_shift = (value & 0x1f) as u8;
        self.release_mode = if (value >> 5) & 1 == 0 { EnvelopeMode::Linear } else { EnvelopeMode::Exponential };
        self.sustain_direction = if (value >> 14) & 1 == 0 {
            EnvelopeDirection::Increase
        } else {
            EnvelopeDirection::Decrease
        };
        self.sustain_step = if self.sustain_direction == EnvelopeDirection::Increase {
            7 - ((value >> 6) & 0x3) as i8
        } else {
            -8 + ((value >> 6) & 0x3) as i8
        };
        self.sustain_rate = ((value >> 6) & 0x7f) as u8;
        self.sustain_shift = ((value >> 8) & 0x1f) as u8;
        self.sustain_mode = if value >> 15 == 0 { EnvelopeMode::Linear } else { EnvelopeMode::Exponential };
    }

    /// Starts the envelope of the current phase.
    pub fn update_envelope(&mut self)
        requires
            old(self).wf(),
        ensures
            final(self).wf(),
            *final(self) == old(self).phase_started(),
    {
        match self.phase {
            AdsrPhase::Attack => {
                self.current_target = 0x7fff;
                self.envelope.reset(self.attack_rate, self.attack_shift as i8, self.attack_step, 0x7f,
                    self.attack_mode, EnvelopeDirection::Increase, false);
            },
            AdsrPhase::Decay => {
                self.current_target = self.sustain_level as i16;
                let rate = ((self.decay_shift as u32) << 2) as u8;
                self.envelope.reset(rate, self.decay_shift as i8, -8, 0x7c,
                    EnvelopeMode::Exponential, EnvelopeDirection::Decrease, false);
            },
            AdsrPhase::Sustain => {
                self.current_target = -1;
                let step = if self.sustain_direction == EnvelopeDirection::Decrease {
                    !self.sustain_step
                } else {
                    self.sustain_step
                };
                self.envelope.reset(self.sustain_rate, self.sustain_shift as i8, step, 0x7f,
                    self.sustain_mode, self.sustain_direction, false);
            },
            AdsrPhase::Release => {
                self.current_target = 0;
                let rate = ((self.release_shift as u32) << 2) as u8;
                self.envelope.reset(rate, self.release_shift as i8, -8, 0x7c,
                    self.release_mode, EnvelopeDirection::Decrease, false);
            },
            AdsrPhase::Idle => {
                self.current_target = 0;
                self.envelope.reset(0, 0, 0, 0, EnvelopeMode::Linear, EnvelopeDirection::Increase, false);
            },
        }
    }

    /// Advances the envelope by one sample and moves to the next phase at its target.
    pub fn tick(&mut self)
        requires
            old(self).wf(),
        ensures
            final(self).wf(),
            *final(self) == old(self).spec_tick(),
    {
        if self.envelope.increment > 0 {
            self.envelope.tick();
        }
        if self.current_target < 0 {
            return ;
        }
        let reached_target = match self.phase {
            AdsrPhase::Attack | AdsrPhase::Idle => self.envelope.volume >= self.current_target,
            AdsrPhase::Decay | AdsrPhase::Release => self.envelope.volume <= self.current_target,
            AdsrPhase::Sustain => if self.sustain_direction == EnvelopeDirection::Decrease {
                self.envelope.volume <= self.current_target
            } else {
                self.envelope.volume >= self.current_target
            },
        };
        if reached_target {
            self.phase = match self.phase {
                AdsrPhase::Attack => AdsrPhase::Decay,
                AdsrPhase::Decay => AdsrPhase::Sustain,
                AdsrPhase::Sustain => AdsrPhase::Sustain,
                AdsrPhase::Idle => AdsrPhase::Idle,
                AdsrPhase::Release => AdsrPhase::Idle,
            };
            self.update_envelope();
        }
    }
}


pub const NUM_BLOCK_SAMPLES: usize = 28;

/// One 16-byte block of SPU ADPCM: shift and filter, loop flags, 28 four-bit samples.
#[derive(Copy, Clone)]
pub struct ADPCMBlock {
    pub filter: u8,
    pub shift: u8,
    pub loop_end: bool,
    pub loop_repeat: bool,
    pub loop_start: bool,
    pub sample_blocks: [u8; 14],
}

impl ADPCMBlock {
    pub fn new() -> (r: Self)
        ensures
            r.filter == 0 && r.shift == 0,
            !r.loop_end && !r.loop_repeat && !r.loop_start,
            forall|i: int| 0 <= i < 14 ==> r.sample_blocks[i] == 0,
    {
        Self {
            filter: 0,
            shift: 0,
            loop_end: false,
            loop_repeat: false,
            loop_start: false,
            sample_blocks: [0; 14],
        }
    }
}

/// The sweep parameters of a voice volume register in sweep mode: rate, shift, step, mode,
/// direction and phase inversion.
pub open spec fn sweep_params(value: u16) -> (u8, i8, i8, EnvelopeMode, EnvelopeDirection, bool) {
    let direction = if (value >> 13u16) & 1 == 0 { EnvelopeDirection::Increase } else { EnvelopeDirection::Decrease };
    (
        (value & 0x7f) as u8,
        ((value >> 2u16) & 0x1f) as i8,
        if direction == EnvelopeDirection::Increase { (7 - (value & 0x3)) as i8 } else { (-8 + (value & 0x3)) as i8 },
        mode_bit((value >> 14u16) & 1),
        direction,
        (value >> 12u16) & 1 == 1,
    )
}

/// `v / 2` rounded toward zero.
pub open spec fn half(v: i16) -> i16 {
    if v >= 0 { (v / 2) as i16 } else { (-((-v) / 2)) as i16 }
}

/// A voice's envelope in sweep mode after its volume register takes `value`.
pub open spec fn swept(e: Envelope, value: u16) -> Envelope {
    let (rate, shift, step, mode, direction, invert) = sweep_params(value);
    e.spec_reset(rate, shift, step, 0x7f, mode, direction, invert)
}

/// One of the 24 SPU voices.
#[derive(Copy, Clone)]
pub struct Voice {
    pub start_address: u32,
    pub sample_rate: u16,
    pub repeat_address: u32,
    pub adsr: Adsr,
    pub current_address: u32,
    pub pitch_counter: u32,
    pub has_samples: bool,
    pub is_first_block: bool,
    pub last_decoded_samples: [i16; 2],
    pub last_gaussian_samples: [i16; 4],
    pub current_samples: [i16; 28],
    pub current_block: ADPCMBlock,
    pub last_volume: i32,
    pub left_envelope: Envelope,
    pub right_envelope: Envelope,
    pub using_left_envelope: bool,
    pub using_right_envelope: bool,
    pub ignore_loop_address: bool,
}

/// Whether `channel` is one of a voice's eight registers.
pub open spec fn is_voice_register(channel: usize) -> bool {
    channel < 0x10 && channel % 2 == 0
}

impl Voice {
    /// The invariant: envelopes consistent, addresses inside sound RAM, the pitch counter
    /// inside the current block.
    pub open spec fn wf(&self) -> bool {
        &&& self.adsr.wf()
        &&& self.left_envelope.wf()
        &&& self.right_envelope.wf()
        &&& self.start_address < 0x80000
        &&& self.repeat_address < 0x80000
        &&& self.current_address < 0x80000
        &&& self.pitch_counter < 0x1c000
    }

    /// The voice after the CPU writes `value` to its register `channel`.
    pub open spec fn written(self, channel: usize, value: u16) -> Voice {
        if channel == 0 {
            if (value >> 15u16) & 1 == 1 {
                let e = swept(self.left_envelope, value);
                Voice {
                    left_envelope: e,
                    using_right_envelope: self.right_envelope.increment > 0,
                    using_left_envelope: e.increment > 0,
                    ..self
                }
            } else {
                Voice {
                    using_left_envelope: false,
                    left_envelope: Envelope { volume: (value * 2) as i16, ..self.left_envelope },
                    ..self
                }
            }
        } else if channel == 2 {
            if (value >> 15u16) & 1 == 1 {
                let e = swept(self.right_envelope, value);
                Voice { right_envelope: e, using_right_envelope: e.increment > 0, ..self }
            } else {
                Voice {
                    using_right_envelope: false,
                    right_envelope: Envelope { volume: (value * 2) as i16, ..self.right_envelope },
                    ..self
                }
            }
        } else if channel == 4 {
            Voice { sample_rate: value, ..self }
        } else if channel == 6 {
            Voice { start_address: (value as u32 * 8) as u32, ..self }
        } else if channel == 8 {
            let a = self.adsr.written_lower(value);
            Voice { adsr: if a.phase != AdsrPhase::Idle { a.phase_started() } else { a }, ..self }
        } else if channel == 0xa {
            let a = self.adsr.written_upper(value);
            Voice { adsr: if a.phase != AdsrPhase::Idle { a.phase_started() } else { a }, ..self }
        } else if channel == 0xc {
            Voice { adsr: Adsr { envelope: Envelope { volume: value as i16, ..self.adsr.envelope }, ..self.adsr }, ..self }
        } else {
            Voice {
                ignore_loop_address: !self.is_first_block && self.adsr.phase == AdsrPhase::Idle,
                repeat_address: (value as u32 * 8) as u32,
                ..self
            }
        }
    }

    /// The voice after a key on: it restarts from its start address in the attack phase,
    /// from silence.
    pub open spec fn keyed_on(self) -> Voice {
        Voice {
            current_address: self.start_address,
            is_first_block: true,
            has_samples: false,
            adsr: (Adsr {
                phase: AdsrPhase::Attack,
                envelope: Envelope { volume: 0, ..self.adsr.envelope },
                ..self.adsr
            }).phase_started(),
            ..self
        }
    }

    /// The voice after a key off: it enters its release phase.
    pub open spec fn keyed_off(self) -> Voice {
        Voice { adsr: (Adsr { phase: AdsrPhase::Release, ..self.adsr }).phase_started(), ..self }
    }

    /// The value the CPU reads from register `channel`.
    pub open spec fn spec_read(self, channel: usize) -> u16 {
        if channel == 0 {
            half(self.left_envelope.volume) as u16
        } else if channel == 2 {
            half(self.right_envelope.volume) as u16
        } else if channel == 4 {
            self.sample_rate
        } else if channel == 6 {
            (self.start_address / 8) as u16
        } else if channel == 8 {
            self.adsr.value as u16
        } else if channel == 0xa {
            (self.adsr.value >> 16u32) as u16
        } else if channel == 0xc {
            self.adsr.envelope.volume as u16
        } else {
            (self.repeat_address / 8) as u16
        }
    }

    /// A silent voice: idle, at address zero, with no samples decoded.
    pub open spec fn is_fresh(self) -> bool {
        &&& self.adsr.phase == AdsrPhase::Idle
        &&& self.start_address == 0 && self.repeat_address == 0 && self.current_address == 0
        &&& self.sample_rate == 0 && self.pitch_counter == 0 && self.last_volume == 0
        &&& !self.has_samples && !self.is_first_block && !self.ignore_loop_address
        &&& !self.using_left_envelope && !self.using_right_envelope
    }

    pub fn new() -> (r: Self)
        ensures
            r.wf(),
            r.is_fresh(),
    {
        Self {
            adsr: Adsr::new(),
            start_address: 0,
            sample_rate: 0,
            repeat_address: 0,
            current_address: 0,
            pitch_counter: 0,
            has_samples: false,
            is_first_block: false,
            last_decoded_samples: [0; 2],
            current_samples: [0; 28],
            current_block: ADPCMBlock::new(),
            last_volume: 0,
            left_envelope: Envelope::new(),
            right_envelope: Envelope::new(),
            using_left_envelope: false,
            using_right_envelope: false,
            last_gaussian_samples: [0; 4],
            ignore_loop_address: false,
        }
    }

    fn get_sweep_params(value: u16) -> (r: (u8, i8, i8, EnvelopeMode, EnvelopeDirection, bool))
        ensures
            r == sweep_params(value),
            0 <= r.1 <= 0x1f,
    {
        proof {
            lemma_u16_fields(value, 0);
        }
        let sweep_shift = (value >> 2) & 0x1f;
        let sweep_rate = value & 0x7f;
        let invert_phase = (value >> 12) & 1 == 1;
        let direction = if (value >> 13) & 1 == 0 { EnvelopeDirection::Increase } else { EnvelopeDirection::Decrease };
        let sweep_step = if direction == EnvelopeDirection::Increase {
            7 - ((value & 0x3) as i8)
        } else {
            -8 + ((value & 0x3) as i8)
        };
        let mode = if (value >> 14) & 1 == 0 { EnvelopeMode::Linear } else { EnvelopeMode::Exponential };
        (sweep_rate as u8, sweep_shift as i8, sweep_step, mode, direction, invert_phase)
    }

    fn write_left_volume(&mut self, value: u16)
        requires
            old(self).wf(),
        ensures
            final(self).wf(),
            *final(self) == old(self).written(0, value),
    {
        proof {
            lemma_u16_fields(value, 0);
        }
        if (value >> 15) & 1 == 1 {
            let (sweep_rate, sweep_shift, sweep_step, mode, direction, invert_phase) = Self::get_sweep_params(value);
            self.left_envelope.reset(sweep_rate, sweep_shift, sweep_step, 0x7f, mode, direction, invert_phase);
            self.using_right_envelope = self.right_envelope.increment > 0;
            self.using_left_envelope = self.left_envelope.increment > 0;
        } else {
            self.using_left_envelope = false;
            self.left_envelope.volume = (value * 2) as i16;
        }
    }

    fn write_right_volume(&mut self, value: u16)
        requires
            old(self).wf(),
        ensures
            final(self).wf(),
            *final(self) == old(self).written(2, value),
    {
        proof {
            lemma_u16_fields(value, 0);
        }
        if (value >> 15) & 1 == 1 {
            let (sweep_rate, sweep_shift, sweep_step, mode, direction, invert_phase) = Self::get_sweep_params(value);
            self.right_envelope.reset(sweep_rate, sweep_shift, sweep_step, 0x7f, mode, direction, invert_phase);
            self.using_right_envelope = self.right_envelope.increment > 0;
        } else {
            self.using_right_envelope = false;
            self.right_envelope.volume = (value * 2) as i16;
        }
    }

    /// A write of one of the voice's registers: volumes (or sweeps), pitch, start address,
    /// ADSR, current ADSR volume, repeat address.
    #[verifier::rlimit(40)]
    pub fn write(&mut self, channel: usize, value: u16)
        requires
            old(self).wf(),
            is_voice_register(channel),
        ensures
            final(self).wf(),
            *final(self) == old(self).written(channel, value),
    {
        proof {
            lemma_u16_fields(value, 0);
            assert((value as u32) * 8 < 0x80000);
        }
        if channel == 0 {
            self.write_left_volume(value);
        } else if channel == 2 {
            self.write_right_volume(value);
        } else if channel == 4 {
            self.sample_rate = value;
        } else if channel == 6 {
            self.start_address = (value as u32) * 8;
        } else if channel == 8 {
            self.adsr.write_lower(value);
            if self.adsr.phase != AdsrPhase::Idle {
                self.adsr.update_envelope();
            }
        } else if channel == 0xa {
            self.adsr.write_upper(value);
            if self.adsr.phase != AdsrPhase::Idle {
                self.adsr.update_envelope();
            }
        } else if channel == 0xc {
            self.adsr.envelope.volume = value as i16;
        } else {
            self.ignore_loop_address = !self.is_first_block && self.adsr.phase == AdsrPhase::Idle;
            self.repeat_address = value as u32 * 8;
        }
    }

    /// A read of one of the voice's registers.
    pub fn read(&self, channel: usize) -> (r: u16)
        requires
            is_voice_register(channel),
        ensures
            r == self.spec_read(channel),
    {
        if channel == 0 {
            half_volume(self.left_envelope.volume) as u16
        } else if channel == 2 {
            half_volume(self.right_envelope.volume) as u16
        } else if channel == 4 {
            self.sample_rate
        } else if channel == 6 {
            (self.start_address / 8) as u16
        } else if channel == 8 {
            self.adsr.value as u16
        } else if channel == 0xa {
            (self.adsr.value >> 16) as u16
        } else if channel == 0xc {
            self.adsr.envelope.volume as u16
        } else {
            (self.repeat_address / 8) as u16
        }
    }

    /// Key on: the voice restarts from its start address in the attack phase.
    pub fn update_keyon(&mut self)
        requires
            old(self).wf(),
        ensures
            final(self).wf(),
            *final(self) == old(self).keyed_on(),
    {
        self.current_address = self.start_address;
        self.adsr.phase = AdsrPhase::Attack;
        self.adsr.envelope.volume = 0;
        self.is_first_block = true;
        self.has_samples = false;
        self.adsr.update_envelope();
    }

    /// Key off: the voice enters its release phase.
    pub fn update_keyoff(&mut self)
        requires
            old(self).wf(),
        ensures
            final(self).wf(),
            *final(self) == old(self).keyed_off(),
    {
        self.adsr.phase = AdsrPhase::Release;
        self.adsr.update_envelope();
    }
}

/// `v / 2` rounded toward zero.
fn half_volume(v: i16) -> (r: i16)
    ensures
        r == half(v),
{
    v / 2
}

} // verus!

verus! {

/// The SPU's Gaussian interpolation weights.
pub const GAUSSIAN_TABLE: [i32; 512] = [
    -0x001, -0x001, -0x001, -0x001, -0x001, -0x001, -0x001, -0x001,
    -0x001, -0x001, -0x001, -0x001, -0x001, -0x001, -0x001, -0x001,
    0x0000, 0x0000, 0x0000, 0x0000, 0x0000, 0x0000, 0x0000, 0x0001,
    0x0001, 0x0001, 0x0001, 0x0002, 0x0002, 0x0002, 0x0003, 0x0003,
    0x0003, 0x0004, 0x0004, 0x0005, 0x0005, 0x0006, 0x0007, 0x0007,
    0x0008, 0x0009, 0x0009, 0x000a, 0x000b, 0x000c, 0x000d, 0x000e,
    0x000f, 0x0010, 0x0011, 0x0012, 0x0013, 0x0015, 0x0016, 0x0018,
    0x0019, 0x001b, 0x001c, 0x001e, 0x0020, 0x0021, 0x0023, 0x0025,
    0x0027, 0x0029, 0x002c, 0x002e, 0x0030, 0x0033, 0x0035, 0x0038,
    0x003a, 0x003d, 0x0040, 0x0043, 0x0046, 0x0049, 0x004d, 0x0050,
    0x0054, 0x0057, 0x005b, 0x005f, 0x0063, 0x0067, 0x006b, 0x006f,
    0x0074, 0x0078, 0x007d, 0x0082, 0x0087, 0x008c, 0x0091, 0x0096,
    0x009c, 0x00a1, 0x00a7, 0x00ad, 0x00b3, 0x00ba, 0x00c0, 0x00c7,
    0x00cd, 0x00d4, 0x00db, 0x00e3, 0x00ea, 0x00f2, 0x00fa, 0x0101,
    0x010a, 0x0112, 0x011b, 0x0123, 0x012c, 0x0135, 0x013f, 0x0148,
    0x0152, 0x015c, 0x0166, 0x0171, 0x017b, 0x0186, 0x0191, 0x019c,
    0x01a8, 0x01b4, 0x01c0, 0x01cc, 0x01d9, 0x01e5, 0x01f2, 0x0200,
    0x020d, 0x021b, 0x0229, 0x0237, 0x0246, 0x0255, 0x0264, 0x0273,
    0x0283, 0x0293, 0x02a3, 0x02b4, 0x02c4, 0x02d6, 0x02e7, 0x02f9,
    0x030b, 0x031d, 0x0330, 0x0343, 0x0356, 0x036a, 0x037e, 0x0392,
    0x03a7, 0x03bc, 0x03d1, 0x03e7, 0x03fc, 0x0413, 0x042a, 0x0441,
    0x0458, 0x0470, 0x0488, 0x04a0, 0x04b9, 0x04d2, 0x04ec, 0x0506,
    0x0520, 0x053b, 0x0556, 0x0572, 0x058e, 0x05aa, 0x05c7, 0x05e4,
    0x0601, 0x061f, 0x063e, 0x065c, 0x067c, 0x069b, 0x06bb, 0x06dc,
    0x06fd, 0x071e, 0x0740, 0x0762, 0x0784, 0x07a7, 0x07cb, 0x07ef,
    0x0813, 0x0838, 0x085d, 0x0883, 0x08a9, 0x08d0, 0x08f7, 0x091e,
    0x0946, 0x096f, 0x0998, 0x09c1, 0x09eb, 0x0a16, 0x0a40, 0x0a6c,
    0x0a98, 0x0ac4, 0x0af1, 0x0b1e, 0x0b4c, 0x0b7a, 0x0ba9, 0x0bd8,
    0x0c07, 0x0c38, 0x0c68, 0x0c99, 0x0ccb, 0x0cfd, 0x0d30, 0x0d63,
    0x0d97, 0x0dcb, 0x0e00, 0x0e35, 0x0e6b, 0x0ea1, 0x0ed7, 0x0f0f,
    0x0f46, 0x0f7f, 0x0fb7, 0x0ff1, 0x102a, 0x1065, 0x109f, 0x10db,
    0x1116, 0x1153, 0x118f, 0x11cd, 0x120b, 0x1249, 0x1288, 0x12c7,
    0x1307, 0x1347, 0x1388, 0x13c9, 0x140b, 0x144d, 0x1490, 0x14d4,
    0x1517, 0x155c, 0x15a0, 0x15e6, 0x162c, 0x1672, 0x16b9, 0x1700,
    0x1747, 0x1790, 0x17d8, 0x1821, 0x186b, 0x18b5, 0x1900, 0x194b,
    0x1996, 0x19e2, 0x1a2e, 0x1a7b, 0x1ac8, 0x1b16, 0x1b64, 0x1bb3,
    0x1c02, 0x1c51, 0x1ca1, 0x1cf1, 0x1d42, 0x1d93, 0x1de5, 0x1e37,
    0x1e89, 0x1edc, 0x1f2f, 0x1f82, 0x1fd6, 0x202a, 0x207f, 0x20d4,
    0x2129, 0x217f, 0x21d5, 0x222c, 0x2282, 0x22da, 0x2331, 0x2389,
    0x23e1, 0x2439, 0x2492, 0x24eb, 0x2545, 0x259e, 0x25f8, 0x2653,
    0x26ad, 0x2708, 0x2763, 0x27be, 0x281a, 0x2876, 0x28d2, 0x292e,
    0x298b, 0x29e7, 0x2a44, 0x2aa1, 0x2aff, 0x2b5c, 0x2bba, 0x2c18,
    0x2c76, 0x2cd4, 0x2d33, 0x2d91, 0x2df0, 0x2e4f, 0x2eae, 0x2f0d,
    0x2f6c, 0x2fcc, 0x302b, 0x308b, 0x30ea, 0x314a, 0x31aa, 0x3209,
    0x3269, 0x32c9, 0x3329, 0x3389, 0x33e9, 0x3449, 0x34a9, 0x3509,
    0x3569, 0x35c9, 0x3629, 0x3689, 0x36e8, 0x3748, 0x37a8, 0x3807,
    0x3867, 0x38c6, 0x3926, 0x3985, 0x39e4, 0x3a43, 0x3aa2, 0x3b00,
    0x3b5f, 0x3bbd, 0x3c1b, 0x3c79, 0x3cd7, 0x3d35, 0x3d92, 0x3def,
    0x3e4c, 0x3ea9, 0x3f05, 0x3f62, 0x3fbd, 0x4019, 0x4074, 0x40d0,
    0x412a, 0x4185, 0x41df, 0x4239, 0x4292, 0x42eb, 0x4344, 0x439c,
    0x43f4, 0x444c, 0x44a3, 0x44fa, 0x4550, 0x45a6, 0x45fc, 0x4651,
    0x46a6, 0x46fa, 0x474e, 0x47a1, 0x47f4, 0x4846, 0x4898, 0x48e9,
    0x493a, 0x498a, 0x49d9, 0x4a29, 0x4a77, 0x4ac5, 0x4b13, 0x4b5f,
    0x4bac, 0x4bf7, 0x4c42, 0x4c8d, 0x4cd7, 0x4d20, 0x4d68, 0x4db0,
    0x4df7, 0x4e3e, 0x4e84, 0x4ec9, 0x4f0e, 0x4f52, 0x4f95, 0x4fd7,
    0x5019, 0x505a, 0x509a, 0x50da, 0x5118, 0x5156, 0x5194, 0x51d0,
    0x520c, 0x5247, 0x5281, 0x52ba, 0x52f3, 0x532a, 0x5361, 0x5397,
    0x53cc, 0x5401, 0x5434, 0x5467, 0x5499, 0x54ca, 0x54fa, 0x5529,
    0x5558, 0x5585, 0x55b2, 0x55de, 0x5609, 0x5632, 0x565b, 0x5684,
    0x56ab, 0x56d1, 0x56f6, 0x571b, 0x573e, 0x5761, 0x5782, 0x57a3,
    0x57c3, 0x57e2, 0x57ff, 0x581c, 0x5838, 0x5853, 0x586d, 0x5886,
    0x589e, 0x58b5, 0x58cb, 0x58e0, 0x58f4, 0x5907, 0x5919, 0x592a,
    0x593a, 0x5949, 0x5958, 0x5965, 0x5971, 0x597c, 0x5986, 0x598f,
    0x5997, 0x599e, 0x59a4, 0x59a9, 0x59ad, 0x59b0, 0x59b2, 0x59b3,
];

/// The weight of the newer of two samples for each ADPCM filter.
pub const POS_FILTER_TABLE: [i8; 16] = [0, 60, 115, 98, 122, 0, 0, 0, 0, 0, 0, 0, 0, 0, 0, 0];

/// The weight of the older of two samples for each ADPCM filter.
pub const NEG_FILTER_TABLE: [i8; 16] = [0, 0, -52, -55, -60, 0, 0, 0, 0, 0, 0, 0, 0, 0, 0, 0];

/// Byte `k` of the 16-byte block at `address` of sound RAM; addresses wrap at its end.
pub open spec fn block_byte(ram: Seq<u8>, address: u32, k: int) -> u8 {
    ram[(address + k) % 0x80000]
}

/// The 14 sample bytes of the block at `address`.
pub open spec fn block_samples(ram: Seq<u8>, address: u32) -> Seq<u8> {
    Seq::new(14, |k: int| block_byte(ram, address, 2 + k))
}

/// Sample `i`'s four bits: low nibble first.
pub open spec fn nibble(bytes: Seq<u8>, i: int) -> u8 {
    if i % 2 == 0 { bytes[i / 2] & 0xf } else { bytes[i / 2] >> 4u8 }
}

/// A nibble as the top four bits of a signed 16-bit value, shifted right by `shift`.
pub open spec fn nibble_base(n: u8, shift: u8) -> i32 {
    (((n as i16) << 12u16) as i32) >> (shift as i32)
}

/// The filter term of an earlier sample: the 16-bit product with the weight, over 64.
pub open spec fn filter_term(sample: i16, weight: i8) -> i32 {
    (sample.wrapping_mul(weight as i16) >> 6i16) as i32
}

/// One decoded sample from its nibble and the two samples before it.
pub open spec fn adpcm_sample(n: u8, shift: u8, filter: u8, newer: i16, older: i16) -> i16 {
    spec_clamp(
        (nibble_base(n, shift) + filter_term(newer, POS_FILTER_TABLE@[filter as int])
            + filter_term(older, NEG_FILTER_TABLE@[filter as int])) as i32,
        -0x8000i32,
        0x7fffi32,
    )
}

/// The first `n` samples decoded from `bytes`, after the samples `l0` (newest) and `l1`.
pub open spec fn decoded(bytes: Seq<u8>, shift: u8, filter: u8, l0: i16, l1: i16, n: nat) -> Seq<i16>
    decreases n,
{
    if n == 0 {
        Seq::empty()
    } else {
        let p = decoded(bytes, shift, filter, l0, l1, (n - 1) as nat);
        let m = n - 1;
        let newer = if m == 0 { l0 } else { p[m - 1] };
        let older = if m == 0 { l1 } else if m == 1 { l0 } else { p[m - 2] };
        p.push(adpcm_sample(nibble(bytes, m), shift, filter, newer, older))
    }
}

/// Filter 1 weighs the newest earlier sample by 60/64 and the one before it not at all: a
/// block decoded with it does not depend on the second earlier sample `l1`.
pub proof fn lemma_filter1_ignores_older(bytes: Seq<u8>, shift: u8, l0: i16, l1: i16, other: i16, n: nat)
    ensures
        decoded(bytes, shift, 1, l0, l1, n) == decoded(bytes, shift, 1, l0, other, n),
    decreases n,
{
    if n > 0 {
        lemma_filter1_ignores_older(bytes, shift, l0, l1, other, (n - 1) as nat);
        lemma_sample_bits(0);
        assert(NEG_FILTER_TABLE@[1] == 0);
        assert(l1.wrapping_mul(0i16) == 0i16);
        assert(other.wrapping_mul(0i16) == 0i16);
        assert(filter_term(l1, 0i8) == 0);
        assert(filter_term(other, 0i8) == 0);
    }
}

/// The first sample of a block decoded with filter 1 is its first nibble (the low four bits
/// of the first sample byte) plus 60/64 of the newest earlier sample `l0`, clamped to 16
/// bits.
pub proof fn lemma_filter1_first_sample(bytes: Seq<u8>, shift: u8, l0: i16, l1: i16)
    ensures
        decoded(bytes, shift, 1, l0, l1, 1) == seq![
            spec_clamp((nibble_base(bytes[0] & 0xf, shift) + filter_term(l0, 60i8)) as i32, -0x8000i32, 0x7fffi32),
        ],
{
    lemma_sample_bits(0);
    assert(NEG_FILTER_TABLE@[1] == 0);
    assert(POS_FILTER_TABLE@[1] == 60);
    assert(l1.wrapping_mul(0i16) == 0i16);
    assert(filter_term(l1, 0i8) == 0);
    reveal_with_fuel(decoded, 2);
    assert(decoded(bytes, shift, 1, l0, l1, 1) =~= seq![
        spec_clamp((nibble_base(bytes[0] & 0xf, shift) + filter_term(l0, 60i8)) as i32, -0x8000i32, 0x7fffi32),
    ]);
}

/// The sample `k` places before the newest of the four the interpolation reads (k = 3 for
/// the oldest): from the end of the previous block where the index runs below zero.
pub open spec fn tap(v: Voice, index: int) -> i32 {
    if index < 0 {
        v.last_gaussian_samples@[index + 3] as i32
    } else {
        v.current_samples@[index] as i32
    }
}

/// One Gaussian-weighted tap.
pub open spec fn weighted(weight_index: int, sample: i32) -> i32 {
    GAUSSIAN_TABLE@[weight_index].wrapping_mul(sample) >> 15i32
}

/// The interpolated sample at the voice's pitch counter.
pub open spec fn interpolated(v: Voice) -> i32 {
    let ii = ((v.pitch_counter >> 4u32) & 0xff) as int;
    let si = (v.pitch_counter >> 12u32) as int;
    (weighted(0xff - ii, tap(v, si - 3)) + weighted(0x1ff - ii, tap(v, si - 2)) + weighted(
        0x100 - ii,
        tap(v, si - 1),
    ) + weighted(ii, tap(v, si))) as i32
}

/// Whether `new` is `old` after it read and decoded the block at its current address.
pub open spec fn refilled(old: Voice, new: Voice, ram: Seq<u8>) -> bool {
    let a = old.current_address;
    let b0 = block_byte(ram, a, 0);
    let b1 = block_byte(ram, a, 1);
    let shift = b0 & 0xf;
    let filter = (b0 >> 4u8) & 0xf;
    let samples = decoded(block_samples(ram, a), shift, filter, old.last_decoded_samples@[0],
        old.last_decoded_samples@[1], 28);
    let next = ((a + 16) % 0x80000) as u32;
    let loop_start = (b1 >> 2u8) & 1 == 1;
    &&& new.current_samples@ == samples
    &&& new.last_gaussian_samples@ == old.current_samples@.subrange(24, 28)
    &&& new.last_decoded_samples@ == seq![samples[27], samples[26]]
    &&& new.current_block.shift == shift
    &&& new.current_block.filter == filter
    &&& new.current_block.loop_end == (b1 & 1 == 1)
    &&& new.current_block.loop_repeat == ((b1 >> 1u8) & 1 == 1)
    &&& new.current_block.loop_start == loop_start
    &&& new.current_block.sample_blocks@ == block_samples(ram, a)
    &&& new == (Voice {
        current_samples: new.current_samples,
        last_gaussian_samples: new.last_gaussian_samples,
        last_decoded_samples: new.last_decoded_samples,
        current_block: new.current_block,
        current_address: next,
        has_samples: true,
        repeat_address: if loop_start && !old.ignore_loop_address { next } else { old.repeat_address },
        ..old
    })
}

/// The pitch step after modulation by the previous voice's output, at most 4000h.
pub open spec fn pitch_step(rate: u16, pitch_modulate: bool, previous_volume: i32) -> u32 {
    let step = if pitch_modulate {
        let factor = (spec_clamp(previous_volume, -0x8000i32, 0x7fffi32) as i32 + 0x80000) as u32;
        ((((rate as u32).wrapping_mul(factor)) >> 15u32) as i16) as u16 as u32
    } else {
        rate as u32
    };
    if step > 0x3fff { 0x4000 } else { step }
}

/// A voice with fresh samples after it produced one output sample: its volume, the ADSR
/// tick, the pitch counter advanced (ending the block at its 28th sample, jumping to the
/// repeat address at a loop end), and the left and right outputs with their sweeps ticked.
pub open spec fn advanced(v: Voice, pitch_modulate: bool, previous_volume: i32, noise_enable: bool) -> (Voice, (i32, i32, bool)) {
    let volume = if v.adsr.envelope.volume > 0 {
        interpolated(v).wrapping_mul(v.adsr.envelope.volume as i32) >> 15i32
    } else {
        0
    };
    let adsr = if v.adsr.phase != AdsrPhase::Idle { v.adsr.spec_tick() } else { v.adsr };
    let counter = v.pitch_counter + pitch_step(v.sample_rate, pitch_modulate, previous_volume);
    let index = counter / 0x1000;
    let ends = index >= 28;
    let stops = ends && v.current_block.loop_end && !v.current_block.loop_repeat && !noise_enable;
    let (left_env, left_on) = if v.using_left_envelope { v.left_envelope.spec_tick() } else { (v.left_envelope, false) };
    let (right_env, right_on) = if v.using_right_envelope { v.right_envelope.spec_tick() } else { (v.right_envelope, false) };
    (
        Voice {
            last_volume: volume,
            adsr: if stops {
                Adsr { phase: AdsrPhase::Idle, envelope: Envelope { volume: 0, ..adsr.envelope }, ..adsr }
            } else {
                adsr
            },
            pitch_counter: if ends { (counter % 0x1000 + (index - 28) * 0x1000) as u32 } else { counter as u32 },
            is_first_block: if ends { false } else { v.is_first_block },
            has_samples: if ends { false } else { v.has_samples },
            current_address: if ends && v.current_block.loop_end { v.repeat_address } else { v.current_address },
            left_envelope: left_env,
            right_envelope: right_env,
            using_left_envelope: if v.using_left_envelope { left_on } else { false },
            using_right_envelope: if v.using_right_envelope { right_on } else { false },
            ..v
        },
        (
            volume.wrapping_mul(v.left_envelope.volume as i32) >> 15i32,
            volume.wrapping_mul(v.right_envelope.volume as i32) >> 15i32,
            ends && v.current_block.loop_end,
        ),
    )
}

/// Whether a voice about to read the block at `address` raises the SPU interrupt: the IRQ
/// address is that block or the next half of it.
pub open spec fn hits_irq(address: u32, irq_address: u32, irq9_enable: bool) -> bool {
    irq9_enable && (address == irq_address || ((address + 8) as u32 & 0x7ffff) == irq_address)
}

fn gaussian(index: usize) -> (r: i32)
    requires
        index < 512,
    ensures
        r == GAUSSIAN_TABLE@[index as int],
{
    GAUSSIAN_TABLE[index]
}

fn weigh(weight_index: usize, sample: i32) -> (r: i32)
    requires
        weight_index < 512,
    ensures
        r == weighted(weight_index as int, sample),
        -0x10000 <= r < 0x10000,
{
    let p = gaussian(weight_index).wrapping_mul(sample);
    assert(-0x10000 <= p >> 15i32 < 0x10000) by (bit_vector);
    p >> 15i32
}

fn decode_nibble_base(n: u8, shift: u8) -> (r: i32)
    requires
        shift < 16,
    ensures
        r == nibble_base(n, shift),
        -0x8000 <= r <= 0x7fff,
{
    let r = (((n as i16) << 12u16) as i32) >> (shift as i32);
    assert(-0x8000 <= (((n as i16) << 12u16) as i32) >> (shift as i32) <= 0x7fff) by (bit_vector)
        requires
            shift < 16,
    ;
    r
}

fn decode_filter_term(sample: i16, weight: i8) -> (r: i32)
    ensures
        r == filter_term(sample, weight),
        -0x200 <= r < 0x200,
{
    let p = sample.wrapping_mul(weight as i16);
    assert(-0x200 <= p >> 6i16 < 0x200) by (bit_vector);
    (p >> 6i16) as i32
}

impl Voice {
    fn get_interpolate_sample(&self, index: isize) -> (r: i32)
        requires
            -3 <= index < 28,
        ensures
            r == tap(*self, index as int),
    {
        if index < 0 {
            self.last_gaussian_samples[(index + 3) as usize] as i32
        } else {
            self.current_samples[index as usize] as i32
        }
    }

    fn interpolate(&self, interpolation_index: usize, sample_index: usize) -> (r: i32)
        requires
            interpolation_index < 256,
            sample_index < 28,
        ensures
            r == (weighted(0xff - interpolation_index, tap(*self, sample_index - 3)) + weighted(
                0x1ff - interpolation_index,
                tap(*self, sample_index - 2),
            ) + weighted(0x100 - interpolation_index, tap(*self, sample_index - 1)) + weighted(
                interpolation_index as int,
                tap(*self, sample_index as int),
            )),
    {
        let i = sample_index as isize;
        let oldest = self.get_interpolate_sample(i - 3);
        let older = self.get_interpolate_sample(i - 2);
        let old = self.get_interpolate_sample(i - 1);
        let new = self.get_interpolate_sample(i);
        let mut out = weigh(0xff - interpolation_index, oldest);
        out += weigh(0x1ff - interpolation_index, older);
        out += weigh(0x100 - interpolation_index, old);
        out += weigh(interpolation_index, new);
        out
    }

    fn read_adpcm_block(&mut self, sound_ram: &SoundRam) -> (r: ADPCMBlock)
        requires
            old(self).wf(),
            sound_ram.wf(),
        ensures
            final(self).wf(),
            *final(self) == (Voice {
                current_address: ((old(self).current_address + 16) % 0x80000) as u32,
                ..*old(self)
            }),
            r.shift == block_byte(sound_ram.ram@, old(self).current_address, 0) & 0xf,
            r.filter == (block_byte(sound_ram.ram@, old(self).current_address, 0) >> 4u8) & 0xf,
            r.loop_end == (block_byte(sound_ram.ram@, old(self).current_address, 1) & 1 == 1),
            r.loop_repeat == ((block_byte(sound_ram.ram@, old(self).current_address, 1) >> 1u8) & 1 == 1),
            r.loop_start == ((block_byte(sound_ram.ram@, old(self).current_address, 1) >> 2u8) & 1 == 1),
            r.sample_blocks@ == block_samples(sound_ram.ram@, old(self).current_address),
    {
        let start = self.current_address;
        proof {
            assert(forall|x: u32| x < 0x80000 ==> #[trigger] (((x + 1) as u32) & 0x7ffff) == (x + 1) % 0x80000 && ((x + 1) as u32) & 0x7ffff < 0x80000) by (bit_vector);
        }
        let mut block = ADPCMBlock::new();
        let shift_filter = sound_ram.read8(self.current_address as usize);
        block.shift = shift_filter & 0xf;
        block.filter = (shift_filter >> 4u8) & 0xf;
        self.current_address = (self.current_address + 1) & 0x7_ffff;
        let flags = sound_ram.read8(self.current_address as usize);
        block.loop_end = flags & 1 == 1;
        block.loop_repeat = (flags >> 1u8) & 1 == 1;
        block.loop_start = (flags >> 2u8) & 1 == 1;
        self.current_address = (self.current_address + 1) & 0x7_ffff;
        let mut i: usize = 0;
        while i < 14
            invariant
                0 <= i <= 14,
                sound_ram.wf(),
                old(self).wf(),
                start == old(self).current_address,
                self.current_address == (start + 2 + i) % 0x80000,
                *self == (Voice { current_address: self.current_address, ..*old(self) }),
                forall|k: int| 0 <= k < i ==> block.sample_blocks@[k] == block_byte(sound_ram.ram@, start, 2 + k),
                block.shift == block_byte(sound_ram.ram@, start, 0) & 0xf,
                block.filter == (block_byte(sound_ram.ram@, start, 0) >> 4u8) & 0xf,
                block.loop_end == (block_byte(sound_ram.ram@, start, 1) & 1 == 1),
                block.loop_repeat == ((block_byte(sound_ram.ram@, start, 1) >> 1u8) & 1 == 1),
                block.loop_start == ((block_byte(sound_ram.ram@, start, 1) >> 2u8) & 1 == 1),
                forall|x: u32| x < 0x80000 ==> #[trigger] (((x + 1) as u32) & 0x7ffff) == (x + 1) % 0x80000 && ((x + 1) as u32) & 0x7ffff < 0x80000,
            decreases 14 - i,
        {
            block.sample_blocks[i] = sound_ram.read8(self.current_address as usize);
            self.current_address = (self.current_address + 1) & 0x7_ffff;
            i += 1;
        }
        assert(block.sample_blocks@ =~= block_samples(sound_ram.ram@, start));
        block
    }

    fn decode_adpcm_block(&mut self, block: &ADPCMBlock)
        requires
            old(self).wf(),
            block.filter < 16,
            block.shift < 16,
        ensures
            final(self).wf(),
            final(self).current_samples@ == decoded(block.sample_blocks@, block.shift, block.filter,
                old(self).last_decoded_samples@[0], old(self).last_decoded_samples@[1], 28),
            final(self).last_gaussian_samples@ == old(self).current_samples@.subrange(24, 28),
            final(self).last_decoded_samples@ == seq![final(self).current_samples@[27], final(self).current_samples@[26]],
            final(self).current_block == *block,
            *final(self) == (Voice {
                current_samples: final(self).current_samples,
                last_gaussian_samples: final(self).last_gaussian_samples,
                last_decoded_samples: final(self).last_decoded_samples,
                current_block: final(self).current_block,
                ..*old(self)
            }),
    {
        let positive_filter = POS_FILTER_TABLE[block.filter as usize];
        let negative_filter = NEG_FILTER_TABLE[block.filter as usize];
        let mut j: usize = 0;
        let mut i: usize = 24;
        while i < 28
            invariant
                24 <= i <= 28,
                j == i - 24,
                *self == (Voice { last_gaussian_samples: self.last_gaussian_samples, ..*old(self) }),
                forall|k: int| 0 <= k < j ==> self.last_gaussian_samples@[k] == old(self).current_samples@[24 + k],
            decreases 28 - i,
        {
            self.last_gaussian_samples[j] = self.current_samples[i];
            j += 1;
            i += 1;
        }
        assert(self.last_gaussian_samples@ =~= old(self).current_samples@.subrange(24, 28));
        let ghost l0 = old(self).last_decoded_samples@[0];
        let ghost l1 = old(self).last_decoded_samples@[1];
        let ghost mid = *self;
        let mut i: usize = 0;
        while i < 28
            invariant
                0 <= i <= 28,
                block.filter < 16,
                block.shift < 16,
                positive_filter == POS_FILTER_TABLE@[block.filter as int],
                negative_filter == NEG_FILTER_TABLE@[block.filter as int],
                *self == (Voice { current_samples: self.current_samples, last_decoded_samples: self.last_decoded_samples, ..mid }),
                forall|k: int| 0 <= k < i ==> self.current_samples@[k] == decoded(block.sample_blocks@, block.shift, block.filter, l0, l1, i as nat)[k],
                decoded(block.sample_blocks@, block.shift, block.filter, l0, l1, i as nat).len() == i,
                self.last_decoded_samples@[0] == (if i == 0 { l0 } else { decoded(block.sample_blocks@, block.shift, block.filter, l0, l1, i as nat)[i - 1] }),
                self.last_decoded_samples@[1] == (if i == 0 { l1 } else if i == 1 { l0 } else { decoded(block.sample_blocks@, block.shift, block.filter, l0, l1, i as nat)[i - 2] }),
            decreases 28 - i,
        {
            let ghost prev = decoded(block.sample_blocks@, block.shift, block.filter, l0, l1, i as nat);
            let byte = block.sample_blocks[i / 2];
            let n: u8 = if i % 2 == 0 {
                byte & 0xf
            } else {
                byte >> 4u8
            };
            let mut sample = decode_nibble_base(n, block.shift);
            sample += decode_filter_term(self.last_decoded_samples[0], positive_filter);
            sample += decode_filter_term(self.last_decoded_samples[1], negative_filter);
            self.last_decoded_samples[1] = self.last_decoded_samples[0];
            self.last_decoded_samples[0] = clamp(sample, -0x8000, 0x7fff);
            self.current_samples[i] = self.last_decoded_samples[0];
            proof {
                let next = decoded(block.sample_blocks@, block.shift, block.filter, l0, l1, (i + 1) as nat);
                assert(next == prev.push(self.current_samples@[i as int]));
            }
            i += 1;
        }
        assert(self.current_samples@ =~= decoded(block.sample_blocks@, block.shift, block.filter, l0, l1, 28));
        self.current_block = *block;
    }

    fn refill(&mut self, sound_ram: &SoundRam)
        requires
            old(self).wf(),
            sound_ram.wf(),
        ensures
            final(self).wf(),
            refilled(*old(self), *final(self), sound_ram.ram@),
    {
        let block = self.read_adpcm_block(sound_ram);
        proof {
            let b0 = block_byte(sound_ram.ram@, old(self).current_address, 0);
            assert(b0 & 0xf < 16 && (b0 >> 4u8) & 0xf < 16) by (bit_vector);
        }
        self.decode_adpcm_block(&block);
        self.has_samples = true;
        if self.current_block.loop_start && !self.ignore_loop_address {
            self.repeat_address = self.current_address;
        }
    }

    /// Produces the voice's next output sample: reads and decodes the next ADPCM block when
    /// the samples ran out (raising the SPU interrupt when that block holds the IRQ
    /// address), interpolates at the pitch counter, scales by the ADSR volume, advances the
    /// ADSR and the pitch counter, and returns the left and right outputs and whether a
    /// loop end was passed. An idle voice without the interrupt armed outputs silence.
    pub fn generate_samples(
        &mut self,
        sound_ram: &SoundRam,
        irq_address: u32,
        irq9_enable: bool,
        interrupt_register: &mut InterruptRegister,
        pitch_modulate: bool,
        previous_volume: i32,
        noise_enable: bool,
    ) -> (r: (i32, i32, bool))
        requires
            old(self).wf(),
            sound_ram.wf(),
            noise_enable ==> old(self).adsr.envelope.volume <= 0,
        ensures
            final(self).wf(),
            old(self).adsr.phase == AdsrPhase::Idle && !irq9_enable ==> {
                &&& *final(self) == *old(self)
                &&& r == (0i32, 0i32, false)
                &&& *final(interrupt_register) == *old(interrupt_register)
            },
            !(old(self).adsr.phase == AdsrPhase::Idle && !irq9_enable) ==> {
                &&& final(interrupt_register).bits == (if !old(self).has_samples && hits_irq(
                    old(self).current_address,
                    irq_address,
                    irq9_enable,
                ) {
                    old(interrupt_register).bits | InterruptRegister::SPU
                } else {
                    old(interrupt_register).bits
                })
                &&& exists|mid: Voice|
                    (if old(self).has_samples { mid == *old(self) } else { refilled(*old(self), mid, sound_ram.ram@) })
                    && (*final(self), r) == advanced(mid, pitch_modulate, previous_volume, noise_enable)
            },
    {
        if self.adsr.phase == AdsrPhase::Idle && !irq9_enable {
            return (0, 0, false);
        }
        let ghost start = *self;
        if !self.has_samples {
            if irq9_enable && (self.current_address == irq_address || ((self.current_address + 8)
                & 0x7_ffff) == irq_address) {
                interrupt_register.insert(InterruptRegister::SPU);
            }
            self.refill(sound_ram);
        }
        let ghost mid = *self;
        self.advance(pitch_modulate, previous_volume, noise_enable)
    }
}

impl Voice {
    /// Produces one output sample from the voice's decoded samples (see `advanced`).
    #[verifier::rlimit(40)]
    fn advance(&mut self, pitch_modulate: bool, previous_volume: i32, noise_enable: bool) -> (r: (i32, i32, bool))
        requires
            old(self).wf(),
        ensures
            final(self).wf(),
            (*final(self), r) == advanced(*old(self), pitch_modulate, previous_volume, noise_enable),
    {
        let volume = self.output_volume();
        self.last_volume = volume;
        if self.adsr.phase != AdsrPhase::Idle {
            self.adsr.tick();
        }
        let step = compute_pitch_step(self.sample_rate, pitch_modulate, previous_volume);
        self.pitch_counter += step;
        let mut sample_index = self.pitch_counter >> 12u32;
        let mut endx = false;
        proof {
            let pc = self.pitch_counter;
            assert(pc >> 12u32 == pc / 0x1000 && pc & 0xfff == pc % 0x1000) by (bit_vector);
        }
        if sample_index >= 28 {
            self.is_first_block = false;
            sample_index -= 28;
            self.has_samples = false;
            let low = self.pitch_counter & 0xfff;
            proof {
                assert(sample_index < 4);
                assert(low < 0x1000 && sample_index < 4 ==> (low | (sample_index << 12u32)) == low + sample_index * 0x1000) by (bit_vector);
            }
            self.pitch_counter = low | (sample_index << 12u32);
            if self.current_block.loop_end {
                endx = true;
                self.current_address = self.repeat_address;
                if !self.current_block.loop_repeat && !noise_enable {
                    self.adsr.envelope.volume = 0;
                    self.adsr.phase = AdsrPhase::Idle;
                }
            }
        }
        let left = volume.wrapping_mul(self.left_envelope.volume as i32) >> 15i32;
        let right = volume.wrapping_mul(self.right_envelope.volume as i32) >> 15i32;
        if self.using_left_envelope {
            self.using_left_envelope = self.left_envelope.tick();
        }
        if self.using_right_envelope {
            self.using_right_envelope = self.right_envelope.tick();
        }
        (left, right, endx)
    }

    fn output_volume(&self) -> (r: i32)
        requires
            self.wf(),
        ensures
            r == (if self.adsr.envelope.volume > 0 {
                interpolated(*self).wrapping_mul(self.adsr.envelope.volume as i32) >> 15i32
            } else {
                0
            }),
    {
        if self.adsr.envelope.volume > 0 {
            let interpolation_index = (self.pitch_counter >> 4u32) & 0xff;
            let sample_index = self.pitch_counter >> 12u32;
            proof {
                let pc = self.pitch_counter;
                assert(pc < 0x1c000 ==> (pc >> 4u32) & 0xff < 256 && pc >> 12u32 < 28) by (bit_vector);
            }
            let sample = self.interpolate(interpolation_index as usize, sample_index as usize);
            sample.wrapping_mul(self.adsr.envelope.volume as i32) >> 15i32
        } else {
            0
        }
    }
}

fn compute_pitch_step(rate: u16, pitch_modulate: bool, previous_volume: i32) -> (r: u32)
    ensures
        r == pitch_step(rate, pitch_modulate, previous_volume),
        r <= 0x4000,
{
    let mut step: u32 = rate as u32;
    if pitch_modulate {
        let c = clamp(previous_volume, -0x8000, 0x7fff);
        let factor = (c as i32 + 0x80000) as u32;
        assert(0x78000 <= factor <= 0x87fff);
        let product: u32 = step.wrapping_mul(factor);
        step = ((product >> 15u32) as i16) as u16 as u32;
    }
    if step > 0x3fff {
        step = 0x4000;
    }
    step
}

} // verus!
