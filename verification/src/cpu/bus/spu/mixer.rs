use vstd::prelude::*;
use crate::bits::lemma_sample_bits;
use crate::memory::spec_write16;
use crate::cpu::bus::registers::interrupt_register::InterruptRegister;
use super::{SPU, CAPTURE_SIZE, NUM_SAMPLES, bit, clamp, spec_clamp};
use super::spu_control_register::SpuControlRegister;
use super::spu_stat_register::SpuStatRegister;
use super::voice::{Voice, AdsrPhase, refilled, advanced, hits_irq};

verus! {

/// One output sample of a voice and the voice after it, as `Voice::generate_samples` makes
/// them, with the interrupt status before (`ir0`) and after (`ir1`).
pub open spec fn voice_stepped(
    v: Voice,
    new: Voice,
    out: (i32, i32, bool),
    ram: Seq<u8>,
    irq_address: u32,
    irq9: bool,
    modulate: bool,
    previous: i32,
    noise: bool,
    ir0: u32,
    ir1: u32,
) -> bool {
    if v.adsr.phase == AdsrPhase::Idle && !irq9 {
        &&& new == v
        &&& out == (0i32, 0i32, false)
        &&& ir1 == ir0
    } else {
        &&& ir1 == (if !v.has_samples && hits_irq(v.current_address, irq_address, irq9) {
            ir0 | InterruptRegister::SPU
        } else {
            ir0
        })
        &&& exists|mid: Voice|
            (if v.has_samples { mid == v } else { refilled(v, mid, ram) })
            && (new, out) == advanced(mid, modulate, previous, noise)
    }
}

/// The sum of the left (or right) outputs of the first `n` voices; when `masked`, of those
/// whose bit is set in `mask` only.
pub open spec fn output_sum(outs: Seq<(i32, i32, bool)>, left: bool, masked: bool, mask: u32, n: nat) -> int
    decreases n,
{
    if n == 0 {
        0
    } else {
        output_sum(outs, left, masked, mask, (n - 1) as nat) + if masked && !bit(mask, n - 1) {
            0
        } else if left {
            outs[n - 1].0 as int
        } else {
            outs[n - 1].1 as int
        }
    }
}

/// ENDX after the first `n` voices: a voice that passed a loop end sets its bit.
pub open spec fn ended(endx: u32, outs: Seq<(i32, i32, bool)>, n: nat) -> u32
    decreases n,
{
    if n == 0 {
        endx
    } else {
        let e = ended(endx, outs, (n - 1) as nat);
        if outs[n - 1].2 {
            e | (1u32 << ((n - 1) as u32))
        } else {
            e
        }
    }
}

proof fn lemma_sums_prefix(
    outs: Seq<(i32, i32, bool)>,
    x: (i32, i32, bool),
    n: nat,
    left: bool,
    masked: bool,
    mask: u32,
    endx: u32,
)
    requires
        n <= outs.len(),
    ensures
        output_sum(outs.push(x), left, masked, mask, n) == output_sum(outs, left, masked, mask, n),
        ended(endx, outs.push(x), n) == ended(endx, outs, n),
    decreases n,
{
    if n > 0 {
        lemma_sums_prefix(outs, x, (n - 1) as nat, left, masked, mask, endx);
    }
}

/// A sample scaled by a signed 1.15 volume.
pub open spec fn spec_apply_volume(sample: i32, volume: i32) -> i32 {
    sample.wrapping_mul(volume) >> 15i32
}

/// A sample scaled by a signed 1.15 volume.
pub fn apply_volume(sample: i32, volume: i32) -> (r: i32)
    ensures
        r == spec_apply_volume(sample, volume),
{
    sample.wrapping_mul(volume) >> 15
}

/// A buffer after one sample is offered to it: kept unless the buffer is full.
pub open spec fn pushed(buffer: Seq<i16>, sample: i16) -> Seq<i16> {
    if buffer.len() < NUM_SAMPLES {
        buffer.push(sample)
    } else {
        buffer
    }
}

/// The halfword a CD sample leaves in its capture buffer (zero when none was taken).
pub open spec fn cd_capture(sample: Option<i16>) -> u16 {
    match sample {
        Some(s) => s as u16,
        None => 0,
    }
}

impl SPU {
    pub open spec fn flag(self, f: u16) -> bool {
        self.spucnt.bits & f == f
    }

    /// Every voice with noise selected is silent.
    pub open spec fn noise_silent(self) -> bool {
        forall|i: int|
            #![trigger self.voices@[i]]
            0 <= i < 24 && bit(self.noise_enable, i) ==> self.voices@[i].adsr.envelope.volume <= 0
    }

    /// Voice `i` of `voices` is voice `i` of this SPU after its sample, modulated by the
    /// voice before it as that voice now stands.
    pub open spec fn voice_step_at(
        self,
        voices: Seq<Voice>,
        outs: Seq<(i32, i32, bool)>,
        irs: Seq<u32>,
        i: int,
    ) -> bool {
        voice_stepped(
            self.voices@[i],
            voices[i],
            outs[i],
            self.sound_ram.ram@,
            self.irq_address,
            self.flag(SpuControlRegister::IRQ9_ENABLE),
            bit(self.sound_modulation, i) && i > 0,
            if i > 0 { voices[i - 1].last_volume } else { 0 },
            bit(self.noise_enable, i),
            irs[i],
            irs[i + 1],
        )
    }

    /// The 24 voices, in order, each stepped once: `outs` are their outputs, `irs` the
    /// interrupt status before each and after the last.
    pub open spec fn voices_stepped(self, voices: Seq<Voice>, outs: Seq<(i32, i32, bool)>, irs: Seq<u32>) -> bool {
        &&& voices.len() == 24
        &&& outs.len() == 24
        &&& irs.len() == 25
        &&& forall|i: int| 0 <= i < 24 ==> #[trigger] self.voice_step_at(voices, outs, irs, i)
    }

    /// The CD sample one side takes: the front of its queue while CD audio is enabled.
    pub open spec fn cd_sample(self, left: bool) -> Option<i16> {
        let q = if left { self.cd_left_samples@ } else { self.cd_right_samples@ };
        if self.flag(SpuControlRegister::CD_AUDIO_ENABLE) && q.len() > 0 {
            Some(q[0])
        } else {
            None
        }
    }

    /// The CD sample of one side at the CD volume (zero when none was taken).
    pub open spec fn cd_mixed(self, left: bool) -> int {
        match self.cd_sample(left) {
            Some(s) => spec_apply_volume(
                s as i32,
                (if left { self.cd_volume.0 } else { self.cd_volume.1 }) as i32,
            ) as int,
            None => 0,
        }
    }

    /// One side of a mixed sample: the output at the main volume, and the reverb input.
    /// Mute silences the voices, not the CD; echo-enabled voices, and the CD when its reverb
    /// is on, feed the reverb; the reverb's output is added while reverb is enabled.
    pub open spec fn mixed_side(self, outs: Seq<(i32, i32, bool)>, left: bool, reverb_out: i32) -> (i32, i32) {
        let mute = self.flag(SpuControlRegister::MUTE_SPU);
        let voices = if mute { 0 } else { output_sum(outs, left, false, 0, 24) };
        let echo = if mute { 0 } else { output_sum(outs, left, true, self.echo_on, 24) };
        let cd = self.cd_mixed(left);
        let out = voices + cd + if self.flag(SpuControlRegister::REVERB_MASTER_ENABLE) {
            reverb_out as int
        } else {
            0
        };
        let rev = echo + if self.flag(SpuControlRegister::CD_AUDIO_REVERB) { cd } else { 0 };
        let volume = if left { self.main_volume_left } else { self.main_volume_right };
        (spec_apply_volume(out as i32, volume as i16 as i32), rev as i32)
    }

    pub open spec fn capture_address(self, k: int) -> int {
        k * CAPTURE_SIZE + self.capture_buffer_pos
    }

    /// Whether one of the four capture writes reaches the IRQ address while it is armed.
    pub open spec fn capture_fires(self) -> bool {
        &&& self.irq_triggerable()
        &&& {
            ||| self.irq_address == self.capture_address(0)
            ||| self.irq_address == self.capture_address(1)
            ||| self.irq_address == self.capture_address(2)
            ||| self.irq_address == self.capture_address(3)
        }
    }

    /// Sound RAM after the capture writes of the CD samples and of voices 1 and 3.
    pub open spec fn captured_ram(self, voices: Seq<Voice>) -> Seq<u8> {
        let r0 = self.sound_ram.ram@;
        let r1 = spec_write16(r0, self.capture_address(0), cd_capture(self.cd_sample(true)));
        let r2 = spec_write16(r1, self.capture_address(1), cd_capture(self.cd_sample(false)));
        let r3 = spec_write16(r2, self.capture_address(2), spec_clamp(voices[1].last_volume, -0x8000i32, 0x7fffi32) as u16);
        spec_write16(r3, self.capture_address(3), spec_clamp(voices[3].last_volume, -0x8000i32, 0x7fffi32) as u16)
    }

    /// `new` and the result `r` are this SPU after one output sample, the voices having
    /// stepped as `voices`, `outs`, `irs` say; `ir1` is the interrupt status after it.
    pub open spec fn sample_mixed(
        self,
        new: SPU,
        reverb_out: (i32, i32),
        ir0: u32,
        ir1: u32,
        r: (i32, i32, i32, i32),
        voices: Seq<Voice>,
        outs: Seq<(i32, i32, bool)>,
        irs: Seq<u32>,
    ) -> bool {
        let (out_left, rev_left) = self.mixed_side(outs, true, reverb_out.0);
        let (out_right, rev_right) = self.mixed_side(outs, false, reverb_out.1);
        let fired = self.capture_fires();
        let stat = if fired {
            self.spustat.bits | SpuStatRegister::IRQ9_FLAG
        } else {
            self.spustat.bits
        };
        let pos = (self.capture_buffer_pos + 2) % CAPTURE_SIZE as int;
        &&& self.voices_stepped(voices, outs, irs)
        &&& irs[0] == ir0
        &&& r == (out_left, out_right, rev_left, rev_right)
        &&& new.voices@ == voices
        &&& new.endx == ended(self.endx, outs, 24)
        &&& new.sound_ram.ram@ == self.captured_ram(voices)
        &&& new.capture_buffer_pos == pos
        &&& new.spustat.bits == if pos >= CAPTURE_SIZE / 2 {
            stat | SpuStatRegister::CAPTURE_BUFFER_ID
        } else {
            stat & !SpuStatRegister::CAPTURE_BUFFER_ID
        }
        &&& new.cd_left_samples@ == if self.cd_sample(true) is Some {
            self.cd_left_samples@.drop_first()
        } else {
            self.cd_left_samples@
        }
        &&& new.cd_right_samples@ == if self.cd_sample(false) is Some {
            self.cd_right_samples@.drop_first()
        } else {
            self.cd_right_samples@
        }
        &&& new.audio_buffer@ == pushed(pushed(self.audio_buffer@, out_left as i16), out_right as i16)
        &&& ir1 == if fired { irs[24] | InterruptRegister::SPU } else { irs[24] }
        &&& new == (SPU {
            voices: new.voices,
            endx: new.endx,
            sound_ram: new.sound_ram,
            capture_buffer_pos: new.capture_buffer_pos,
            spustat: new.spustat,
            cd_left_samples: new.cd_left_samples,
            cd_right_samples: new.cd_right_samples,
            audio_buffer: new.audio_buffer,
            ..self
        })
    }

    /// Steps the 24 voices in order and sums their outputs: all of them, and those with
    /// echo on (left and right each).
    #[verifier::rlimit(60)]
    fn run_voices(&mut self, interrupt_register: &mut InterruptRegister) -> (r: (
        i32,
        i32,
        i32,
        i32,
        Ghost<Seq<(i32, i32, bool)>>,
        Ghost<Seq<u32>>,
    ))
        requires
            old(self).wf(),
            old(self).noise_silent(),
        ensures
            final(self).wf(),
            old(self).voices_stepped(final(self).voices@, r.4@, r.5@),
            r.5@[0] == old(interrupt_register).bits,
            final(interrupt_register).bits == r.5@[24],
            final(self).endx == ended(old(self).endx, r.4@, 24),
            r.0 == output_sum(r.4@, true, false, 0, 24),
            r.1 == output_sum(r.4@, false, false, 0, 24),
            r.2 == output_sum(r.4@, true, true, old(self).echo_on, 24),
            r.3 == output_sum(r.4@, false, true, old(self).echo_on, 24),
            -0x180000 <= r.0 <= 0x180000,
            -0x180000 <= r.1 <= 0x180000,
            -0x180000 <= r.2 <= 0x180000,
            -0x180000 <= r.3 <= 0x180000,
            *final(self) == (SPU { voices: final(self).voices, endx: final(self).endx, ..*old(self) }),
    {
        let ghost s0 = *self;
        let ghost ir0 = interrupt_register.bits;
        let mut out_left: i32 = 0;
        let mut out_right: i32 = 0;
        let mut echo_left: i32 = 0;
        let mut echo_right: i32 = 0;
        let ghost mut outs: Seq<(i32, i32, bool)> = Seq::empty();
        let ghost mut irs: Seq<u32> = seq![ir0];
        let irq9 = self.spucnt.contains(SpuControlRegister::IRQ9_ENABLE);
        let mut i: usize = 0;
        while i < 24
            invariant
                i <= 24,
                s0.wf(),
                s0.noise_silent(),
                irq9 == s0.flag(SpuControlRegister::IRQ9_ENABLE),
                self.voices@.len() == 24,
                forall|j: int| #![trigger self.voices@[j]] 0 <= j < 24 ==> self.voices@[j].wf(),
                forall|j: int| #![trigger self.voices@[j]] i <= j < 24 ==> self.voices@[j] == s0.voices@[j],
                *self == (SPU { voices: self.voices, endx: self.endx, ..s0 }),
                outs.len() == i,
                irs.len() == i + 1,
                irs[0] == ir0,
                interrupt_register.bits == irs[i as int],
                forall|j: int| 0 <= j < i ==> #[trigger] s0.voice_step_at(self.voices@, outs, irs, j),
                self.endx == ended(s0.endx, outs, i as nat),
                out_left == output_sum(outs, true, false, 0, i as nat),
                out_right == output_sum(outs, false, false, 0, i as nat),
                echo_left == output_sum(outs, true, true, s0.echo_on, i as nat),
                echo_right == output_sum(outs, false, true, s0.echo_on, i as nat),
                -0x10000 * i <= out_left <= 0x10000 * i,
                -0x10000 * i <= out_right <= 0x10000 * i,
                -0x10000 * i <= echo_left <= 0x10000 * i,
                -0x10000 * i <= echo_right <= 0x10000 * i,
            decreases 24 - i,
        {
            let previous_out = if i > 0 { self.voices[i - 1].last_volume } else { 0 };
            let modulate = (self.sound_modulation >> (i as u32)) & 1 == 1 && i > 0;
            let noise = (self.noise_enable >> (i as u32)) & 1 == 1;
            let mut v = self.voices[i];
            assert(bit(s0.noise_enable, i as int) ==> s0.voices@[i as int].adsr.envelope.volume <= 0);
            let ghost ir_before = interrupt_register.bits;
            let (left, right, end) = v.generate_samples(
                &self.sound_ram,
                self.irq_address,
                irq9,
                interrupt_register,
                modulate,
                previous_out,
                noise,
            );
            proof {
                lemma_sample_bits(0);
                if !(s0.voices@[i as int].adsr.phase == AdsrPhase::Idle && !irq9) {
                    let old_v = s0.voices@[i as int];
                    let mid = choose|mid: Voice|
                        (if old_v.has_samples { mid == old_v } else { refilled(old_v, mid, s0.sound_ram.ram@) })
                        && (v, (left, right, end)) == advanced(mid, modulate, previous_out, noise);
                    assert((v, (left, right, end)) == advanced(mid, modulate, previous_out, noise));
                    assert(-0x10000 <= left < 0x10000);
                    assert(-0x10000 <= right < 0x10000);
                }
            }
            let ghost old_voices = self.voices@;
            self.voices.set(i, v);
            let echo = (self.echo_on >> (i as u32)) & 1 == 1;
            out_left = out_left + left;
            out_right = out_right + right;
            if echo {
                echo_left = echo_left + left;
                echo_right = echo_right + right;
            }
            if end {
                self.endx = self.endx | (1u32 << (i as u32));
            }
            proof {
                let x = (left, right, end);
                lemma_sums_prefix(outs, x, i as nat, true, false, 0, s0.endx);
                lemma_sums_prefix(outs, x, i as nat, false, false, 0, s0.endx);
                lemma_sums_prefix(outs, x, i as nat, true, true, s0.echo_on, s0.endx);
                lemma_sums_prefix(outs, x, i as nat, false, true, s0.echo_on, s0.endx);
                let old_outs = outs;
                let old_irs = irs;
                outs = outs.push(x);
                irs = irs.push(interrupt_register.bits);
                assert forall|j: int| 0 <= j <= i implies #[trigger] s0.voice_step_at(self.voices@, outs, irs, j) by {
                    if j < i {
                        assert(self.voices@[j] == old_voices[j]);
                        if j > 0 {
                            assert(self.voices@[j - 1] == old_voices[j - 1]);
                        }
                        assert(outs[j] == old_outs[j]);
                        assert(irs[j] == old_irs[j]);
                        assert(irs[j + 1] == old_irs[j + 1]);
                        assert(s0.voice_step_at(old_voices, old_outs, old_irs, j));
                    } else {
                        assert(irs[j] == ir_before);
                        if j > 0 {
                            assert(self.voices@[j - 1] == old_voices[j - 1]);
                        }
                    }
                }
            }
            i = i + 1;
        }
        (out_left, out_right, echo_left, echo_right, Ghost(outs), Ghost(irs))
    }

    /// Mixes one output sample: steps the 24 voices in order (each modulated by the one
    /// before it where SPUCNT's modulation bit says so), sums their outputs and, for those
    /// with echo on, the reverb input; mute silences the voices; with CD audio enabled takes
    /// one CD sample per side at the CD volume, into the reverb input as well when CD reverb
    /// is on; adds the reverb's output `reverb_out` while reverb is enabled; applies the main
    /// volume; writes the CD samples and voices 1 and 3 to the capture buffers (raising the
    /// SPU interrupt at the IRQ address), advances the capture position and pushes the
    /// sample to the audio buffer. Returns the output and the reverb input, left and right.
    #[verifier::rlimit(80)]
    pub fn mix_sample(&mut self, interrupt_register: &mut InterruptRegister, reverb_out: (i32, i32)) -> (r: (
        i32,
        i32,
        i32,
        i32,
    ))
        requires
            old(self).wf(),
            old(self).noise_silent(),
            -0x8000 <= reverb_out.0 <= 0x7fff,
            -0x8000 <= reverb_out.1 <= 0x7fff,
        ensures
            final(self).wf(),
            exists|voices: Seq<Voice>, outs: Seq<(i32, i32, bool)>, irs: Seq<u32>|
                old(self).sample_mixed(
                    *final(self),
                    reverb_out,
                    old(interrupt_register).bits,
                    final(interrupt_register).bits,
                    r,
                    voices,
                    outs,
                    irs,
                ),
    {
        let ghost s0 = *self;
        let ghost ir0 = interrupt_register.bits;
        let (voice_left, voice_right, echo_left, echo_right, Ghost(outs), Ghost(irs)) = self.run_voices(
            interrupt_register,
        );
        let ghost s1 = *self;
        let mute = self.spucnt.contains(SpuControlRegister::MUTE_SPU);
        let mut output_left: i32 = if mute { 0 } else { voice_left };
        let mut output_right: i32 = if mute { 0 } else { voice_right };
        let mut reverb_in_left: i32 = if mute { 0 } else { echo_left };
        let mut reverb_in_right: i32 = if mute { 0 } else { echo_right };
        let mut cd_audio_left: i16 = 0;
        let mut cd_audio_right: i16 = 0;
        proof {
            lemma_sample_bits(0);
        }
        if self.spucnt.contains(SpuControlRegister::CD_AUDIO_ENABLE) {
            match self.cd_left_samples.pop_front() {
                Some(sample) => {
                    cd_audio_left = sample;
                    let volume = apply_volume(sample as i32, self.cd_volume.0 as i32);
                    if self.spucnt.contains(SpuControlRegister::CD_AUDIO_REVERB) {
                        reverb_in_left = reverb_in_left + volume;
                    }
                    output_left = output_left + volume;
                },
                None => {},
            }
            match self.cd_right_samples.pop_front() {
                Some(sample) => {
                    cd_audio_right = sample;
                    let volume = apply_volume(sample as i32, self.cd_volume.1 as i32);
                    if self.spucnt.contains(SpuControlRegister::CD_AUDIO_REVERB) {
                        reverb_in_right = reverb_in_right + volume;
                    }
                    output_right = output_right + volume;
                },
                None => {},
            }
        }
        if self.spucnt.contains(SpuControlRegister::REVERB_MASTER_ENABLE) {
            output_left = output_left + reverb_out.0;
            output_right = output_right + reverb_out.1;
        }
        output_left = apply_volume(output_left, self.main_volume_left as i16 as i32);
        output_right = apply_volume(output_right, self.main_volume_right as i16 as i32);
        assert(output_left == s0.mixed_side(outs, true, reverb_out.0).0);
        assert(output_right == s0.mixed_side(outs, false, reverb_out.1).0);
        assert(reverb_in_left == s0.mixed_side(outs, true, reverb_out.0).1);
        assert(reverb_in_right == s0.mixed_side(outs, false, reverb_out.1).1);
        let ghost s2 = *self;
        proof {
            lemma_sample_bits(s0.spustat.bits);
        }
        self.write_to_capture(0, cd_audio_left as u16, interrupt_register);
        proof {
            lemma_sample_bits(self.spustat.bits);
        }
        self.write_to_capture(1, cd_audio_right as u16, interrupt_register);
        proof {
            lemma_sample_bits(self.spustat.bits);
        }
        let capture2 = clamp(self.voices[1].last_volume, -0x8000, 0x7fff) as u16;
        self.write_to_capture(2, capture2, interrupt_register);
        proof {
            lemma_sample_bits(self.spustat.bits);
        }
        let capture3 = clamp(self.voices[3].last_volume, -0x8000, 0x7fff) as u16;
        self.write_to_capture(3, capture3, interrupt_register);
        assert(self.sound_ram.ram@ == s0.captured_ram(s1.voices@));
        assert(self.spustat.bits == if s0.capture_fires() {
            s0.spustat.bits | SpuStatRegister::IRQ9_FLAG
        } else {
            s0.spustat.bits
        });
        self.increment_capture_buffer_address();
        self.push_sample(output_left as i16);
        self.push_sample(output_right as i16);
        let r = (output_left, output_right, reverb_in_left, reverb_in_right);
        assert(s0.sample_mixed(*self, reverb_out, ir0, interrupt_register.bits, r, s1.voices@, outs, irs));
        r
    }
}

} // verus!
