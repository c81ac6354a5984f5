//! The DSP as an emulator: creation, initialisation with a RAM image,
//! loading a register set, and running for a number of clocks.
use vstd::prelude::*;
use crate::registers::{R_KON, R_KOFF, R_FLG};
use crate::sizes::{REGISTER_COUNT, VOICE_COUNT, RAM_SIZE, RATE_COUNT, EXTRA_SIZE};
use crate::state::{
    State, StateView, power_on_state, after_mute, after_set_output, after_soft_reset_common,
    surround_threshold_for,
};
use crate::voice::VoiceView;

verus! {

/// Holds the state of the DSP.
pub struct SPC_DSP {
    m: State,
}

impl View for SPC_DSP {
    type V = StateView;

    closed spec fn view(&self) -> StateView {
        self.m@
    }
}

impl SPC_DSP {
    /// Every DSP is in a state that its operations can reach.
    #[verifier::type_invariant]
    spec fn inv(self) -> bool {
        self.m@.in_range()
    }

    /// The state of the DSP, for inspection.
    pub fn state(&self) -> (s: &State)
        ensures
            s@ == self@,
            s@.in_range(),
    {
        proof {
            use_type_invariant(self);
        }
        &self.m
    }
}

/// The period of a counter rate, `rate` clocks of the counter divided by
/// `div`, as a mask of low bits: `rate / div * 8 - 1`, or `rate - 1` for a
/// rate below `div`.
pub open spec fn rate_mask(rate: int, div: int) -> int {
    if rate >= div {
        rate / div * 8 - 1
    } else {
        rate - 1
    }
}

/// For each of the 32 rates, the mask its counter is tested with.
pub open spec fn counter_masks() -> Seq<int> {
    seq![
        rate_mask(2, 2), rate_mask(2048, 4), rate_mask(1536, 3),
        rate_mask(1280, 5), rate_mask(1024, 4), rate_mask(768, 3),
        rate_mask(640, 5), rate_mask(512, 4), rate_mask(384, 3),
        rate_mask(320, 5), rate_mask(256, 4), rate_mask(192, 3),
        rate_mask(160, 5), rate_mask(128, 4), rate_mask(96, 3),
        rate_mask(80, 5), rate_mask(64, 4), rate_mask(48, 3),
        rate_mask(40, 5), rate_mask(32, 4), rate_mask(24, 3),
        rate_mask(20, 5), rate_mask(16, 4), rate_mask(12, 3),
        rate_mask(10, 5), rate_mask(8, 4), rate_mask(6, 3),
        rate_mask(5, 5), rate_mask(4, 4), rate_mask(3, 3),
        rate_mask(2, 4),
        rate_mask(1, 4),
    ]
}

/// The mask the counter of `rate` is tested with.
pub fn counter_mask(rate: usize) -> (mask: u32)
    requires
        rate < RATE_COUNT,
    ensures
        mask as int == counter_masks()[rate as int],
{
    let table: [u32; RATE_COUNT] = [
        7, 4095, 4095,
        2047, 2047, 2047,
        1023, 1023, 1023,
        511, 511, 511,
        255, 255, 255,
        127, 127, 127,
        63, 63, 63,
        31, 31, 31,
        15, 15, 15,
        7, 7, 7,
        1,
        0,
    ];
    assert(table@.map_values(|x: u32| x as int) =~= counter_masks());
    let mask = table[rate];
    assert(table@.map_values(|x: u32| x as int)[rate as int] == mask as int);
    mask
}

/// One step of the 15-bit noise generator: shift right by one and feed
/// bit 0 xor bit 1 back into bit 14.
pub open spec fn noise_step(n: i64) -> i64 {
    (((n << 13u64) ^ (n << 14u64)) & 0x4000i64) ^ (n >> 1u64)
}

/// The rate the noise generator is clocked at: the low five bits of FLG.
pub open spec fn noise_rate_of(s: StateView) -> int {
    (s.regs[R_FLG as int] & 0x1Fu8) as int
}

/// Whether the counter of the noise rate fires.
pub open spec fn noise_fires(s: StateView) -> bool {
    let r = noise_rate_of(s);
    s.counters[s.counter_select[r] as int] & (counter_masks()[r] as usize) == 0usize
}

/// `s` after one sample period: `every_other_sample` flips; when it becomes
/// non-zero the pending key-on flags lose the voices already keyed on, become
/// the key-on flags, and the key-off flags are latched from KOFF; the noise
/// generator steps when the counter of its rate fires; and one left/right
/// sample pair is written at the output cursor (see `after_output`).
pub open spec fn after_sample(s: StateView) -> StateView {
    let eos = s.every_other_sample ^ 1i64;
    let keyed = if eos != 0 {
        let nk = s.new_kon & !s.kon;
        StateView {
            every_other_sample: eos,
            new_kon: nk,
            kon: nk,
            t_koff: s.regs[R_KOFF as int] as i64,
            ..s
        }
    } else {
        StateView { every_other_sample: eos, ..s }
    };
    let noised = if noise_fires(keyed) {
        StateView { noise: noise_step(keyed.noise), ..keyed }
    } else {
        keyed
    };
    after_output(noised)
}

/// `s` after one sample pair is written to the output: with the cursor at
/// `p`, the left sample goes to `extra[p]` and the right one to
/// `extra[p + 1]`, both 0 since no voice is mixed; the cursor advances by 2
/// and goes back to the start of the built-in buffer when it reaches the
/// end. With no output set nothing changes.
pub open spec fn after_output(s: StateView) -> StateView {
    match s.out {
        Some(p) => {
            let extra = s.extra.update(p as int, 0i16).update(p + 1, 0i16);
            if s.out_end is Some && p + 2 >= s.out_end->0 {
                StateView { extra: extra, out: Some(0usize), out_end: Some(EXTRA_SIZE), ..s }
            } else {
                StateView { extra: extra, out: Some((p + 2) as usize), ..s }
            }
        },
        None => s,
    }
}

/// `s` after `n` sample periods.
pub open spec fn after_samples(s: StateView, n: nat) -> StateView
    decreases n,
{
    if n == 0 {
        s
    } else {
        after_sample(after_samples(s, (n - 1) as nat))
    }
}

/// `s` after `run(clock_count)`: one sample period for every 32 clocks
/// reached, and the phase left at the clock position within the period.
pub open spec fn after_run(s: StateView, clock_count: int) -> StateView {
    let t = s.phase + clock_count;
    StateView { phase: (t % 32) as i64, ..after_samples(s, (t / 32) as nat) }
}

/// `s` after `init(ram)`: the RAM holds the first `RAM_SIZE` bytes of `ram`,
/// every voice is enabled with its volumes refreshed, surround is enabled,
/// and the output is the built-in buffer.
pub open spec fn after_init(s: StateView, ram: Seq<u8>) -> StateView {
    let with_ram = StateView { ram: ram.take(RAM_SIZE as int), ..s };
    let unmuted = after_mute(with_ram, 0);
    let surround = StateView {
        surround_threshold: surround_threshold_for(false),
        ..unmuted
    };
    after_set_output(surround)
}

/// `s` after `load(regs)`: the registers are `regs`, every voice restarts
/// its BRR block at offset 1 with an empty decode buffer, the pending
/// key-on flags are the KON register, the mute mask is applied again and
/// the common part of a soft reset is done.
pub open spec fn after_load(s: StateView, regs: Seq<u8>) -> StateView {
    let loaded = StateView {
        regs: regs,
        voices: s.voices.map_values(|v: VoiceView| VoiceView { brr_offset: 1, buf_pos: 0, ..v }),
        new_kon: regs[R_KON as int] as i64,
        ..s
    };
    after_soft_reset_common(after_mute(loaded, s.mute_mask))
}


/// A step keeps a 15-bit noise value 15-bit, and a non-zero one non-zero.
pub proof fn lemma_noise_step_range(n: i64)
    requires
        0 <= n < 0x8000,
    ensures
        0 <= noise_step(n) < 0x8000,
        n > 0 ==> noise_step(n) > 0,
{
    assert(0 <= (((n << 13u64) ^ (n << 14u64)) & 0x4000i64) ^ (n >> 1u64) < 0x8000) by (bit_vector)
        requires 0 <= n < 0x8000;
    assert(n > 0 ==> (((n << 13u64) ^ (n << 14u64)) & 0x4000i64) ^ (n >> 1u64) > 0) by (bit_vector)
        requires 0 <= n < 0x8000;
}

/// The flag `every_other_sample` alternates between 0 and 1.
proof fn lemma_flip(x: i64)
    requires
        x == 0 || x == 1,
    ensures
        x ^ 1i64 == 1 - x,
{
    assert(x ^ 1i64 == 1 - x) by (bit_vector)
        requires x == 0 || x == 1;
}

/// A sample period keeps a state in range and changes only the key-on,
/// key-off, `every_other_sample`, noise and output fields; the output
/// position moves on by 2 within the built-in buffer.
pub proof fn lemma_sample_in_range(s: StateView)
    requires
        s.in_range(),
    ensures
        after_sample(s).in_range(),
        after_sample(s) == (StateView {
            every_other_sample: after_sample(s).every_other_sample,
            kon: after_sample(s).kon,
            new_kon: after_sample(s).new_kon,
            t_koff: after_sample(s).t_koff,
            noise: after_sample(s).noise,
            extra: after_sample(s).extra,
            out: after_sample(s).out,
            out_end: after_sample(s).out_end,
            ..s
        }),
        after_sample(s).every_other_sample == 1 - s.every_other_sample,
        s.out is Some ==> after_sample(s).out == Some(((s.out->0 + 2) % EXTRA_SIZE as int) as usize),
{
    lemma_flip(s.every_other_sample);
    lemma_noise_step_range(s.noise);
}

/// Sample periods do not read or change the phase.
pub proof fn lemma_samples_ignore_phase(s: StateView, p: i64, n: nat)
    ensures
        after_samples(StateView { phase: p, ..s }, n) == (StateView { phase: p, ..after_samples(s, n) }),
    decreases n,
{
    if n > 0 {
        lemma_samples_ignore_phase(s, p, (n - 1) as nat);
        let prev = after_samples(s, (n - 1) as nat);
        assert(after_sample(StateView { phase: p, ..prev }) =~= StateView { phase: p, ..after_sample(prev) });
    }
}

pub trait Emulator {
    /// The position of the DSP within its current 32-clock sample period.
    spec fn clock_phase(&self) -> int;

    /// Whether an output has been set for the samples to go to.
    spec fn output_set(&self) -> bool;

    /// A DSP in its power-on state.
    fn new() -> SPC_DSP;

    /// Installs the first `RAM_SIZE` bytes of `ram_64K` as the shared RAM,
    /// enables every voice, enables surround and sends the output to the
    /// built-in buffer. It does not reset the registers or the voices to a
    /// power-on state: this library has no such reset.
    fn init(&mut self, ram_64K: &Vec<u8>)
        requires
            ram_64K.len() >= RAM_SIZE,
    ;

    /// Loads a full register set and restarts the voices' decoding.
    fn load(&mut self, regs: [u8; REGISTER_COUNT]);

    /// Runs the DSP for `clock_count` clocks (about 1024000 per second).
    /// Every 32 clocks one sample period is processed and a pair of samples
    /// is written to the output, which must then be set. The voices' pitch,
    /// key-on phases and BRR decoding and the main volumes take no part:
    /// nothing is mixed, so every sample written is 0.
    fn run(&mut self, clock_count: i64)
        requires
            0 <= old(self).clock_phase() + clock_count <= i64::MAX,
            old(self).clock_phase() + clock_count >= 32 ==> old(self).output_set(),
    ;
}

impl Emulator for SPC_DSP {
    open spec fn clock_phase(&self) -> int {
        self@.phase as int
    }

    open spec fn output_set(&self) -> bool {
        self@.out is Some
    }

    fn new() -> (dsp: SPC_DSP)
        ensures
            dsp@ == power_on_state(),
            dsp@.in_range(),
    {
        let m = State::new();
        assert(m@.in_range());
        SPC_DSP { m }
    }

    fn init(&mut self, ram_64K: &Vec<u8>)
        ensures
            final(self)@ == after_init(old(self)@, ram_64K@),
            final(self)@.in_range(),
    {
        proof {
            use_type_invariant(&*self);
        }
        let mut ram = [0u8; RAM_SIZE];
        let mut i: usize = 0;
        while i < RAM_SIZE
            invariant
                0 <= i <= RAM_SIZE,
                ram_64K.len() >= RAM_SIZE,
                forall|j: int| 0 <= j < i ==> ram@[j] == ram_64K@[j],
            decreases RAM_SIZE - i,
        {
            ram[i] = ram_64K[i];
            i += 1;
        }
        assert(ram@ =~= ram_64K@.take(RAM_SIZE as int));
        self.m.set_ram(ram);
        self.m.mute_voices(0);
        self.m.disable_surround(false);
        self.m.set_output(0i64);
    }

    /// Loads a full register set and restarts the voices' decoding.
    fn load(&mut self, regs: [u8; REGISTER_COUNT])
        ensures
            final(self)@ == after_load(old(self)@, regs@),
            final(self)@.in_range(),
    {
        proof {
            use_type_invariant(&*self);
        }
        self.m.regs = regs;
        let ghost s1 = self.m@;
        let mut i: usize = VOICE_COUNT;
        while i > 0
            invariant
                0 <= i <= VOICE_COUNT,
                self.m@ == (StateView { voices: self.m@.voices, ..s1 }),
                self.m@.voices.len() == VOICE_COUNT,
                self.m@.in_range(),
                forall|j: int|
                    0 <= j < i ==> self.m@.voices[j] == old(self)@.voices[j],
                forall|j: int|
                    i <= j < VOICE_COUNT ==> self.m@.voices[j] == (VoiceView {
                        brr_offset: 1,
                        buf_pos: 0,
                        ..old(self)@.voices[j]
                    }),
            decreases i,
        {
            i -= 1;
            let ghost before = self.m@.voices;
            let mut v = self.m.voices[i];
            v.brr_offset = 1;
            v.buf_pos = 0;
            self.m.voices[i] = v;
            proof {
                assert(self.m@.voices[i as int] == (VoiceView {
                    brr_offset: 1,
                    buf_pos: 0,
                    ..old(self)@.voices[i as int]
                }));
                assert forall|j: int| i <= j < VOICE_COUNT implies self.m@.voices[j] == (VoiceView {
                    brr_offset: 1,
                    buf_pos: 0,
                    ..old(self)@.voices[j]
                }) by {
                    if j != i {
                        assert(self.m@.voices[j] == before[j]);
                    }
                }
            }
        }
        self.m.new_kon = self.m.regs[R_KON] as i64;
        let mask = self.m.mute_mask;
        let ghost s2 = self.m@;
        assert(s2 =~= StateView {
            regs: regs@,
            voices: old(self)@.voices.map_values(
                |v: VoiceView| VoiceView { brr_offset: 1, buf_pos: 0, ..v },
            ),
            new_kon: regs@[R_KON as int] as i64,
            ..old(self)@
        });
        self.m.mute_voices(mask);
        self.m.soft_reset_common();
    }

    fn run(&mut self, clock_count: i64)
        ensures
            final(self)@ == after_run(old(self)@, clock_count as int),
            final(self)@.in_range(),
    {
        proof {
            use_type_invariant(&*self);
        }
        let new_phase: i64 = self.m.get_phase() + clock_count;
        let count: i64 = new_phase >> 5;
        proof {
            assert(count == new_phase / 32 && new_phase & 31 == new_phase % 32) by (bit_vector)
                requires
                    0 <= new_phase,
                    count == new_phase >> 5,
            ;
        }
        self.m.set_phase(new_phase & 31);
        let ghost start = self.m@;
        proof {
            lemma_samples_ignore_phase(old(self)@, new_phase % 32, 0);
        }
        if count == 0 {
            return;
        }
        let flg: u8 = self.m.regs[R_FLG];
        assert(flg & 0x1Fu8 < 32) by (bit_vector);
        let noise_rate: usize = (flg & 0x1F) as usize;
        let mask: usize = counter_mask(noise_rate) as usize;
        let mut k: i64 = 0;
        while k < count
            invariant
                0 <= k <= count,
                start.in_range(),
                self.m@ == after_samples(start, k as nat),
                self.m@.in_range(),
                self.m@.regs == start.regs,
                self.m@.counters == start.counters,
                self.m@.counter_select == start.counter_select,
                self.m@.out is Some,
                noise_rate < RATE_COUNT,
                noise_rate as int == noise_rate_of(start),
                mask as int == counter_masks()[noise_rate as int],
            decreases count - k,
        {
            proof {
                lemma_sample_in_range(self.m@);
                lemma_flip(self.m@.every_other_sample);
                lemma_noise_step_range(self.m@.noise);
            }
            // KON/KOFF reading
            self.m.every_other_sample ^= 1;
            if self.m.every_other_sample != 0 {
                self.m.new_kon &= !self.m.kon;
                self.m.kon = self.m.new_kon;
                self.m.t_koff = self.m.regs[R_KOFF] as i64;
            }
            self.m.run_counter(1);
            self.m.run_counter(2);
            self.m.run_counter(3);
            // Noise
            let select: usize = self.m.counter_select[noise_rate];
            if self.m.counters[select] & mask == 0 {
                let feedback: i64 = (self.m.noise << 13) ^ (self.m.noise << 14);
                self.m.noise = (feedback & 0x4000) ^ (self.m.noise >> 1);
            }
            // Output: one left/right pair; nothing is mixed
            let main_out_l: i16 = 0;
            let main_out_r: i16 = 0;
            let p: usize = self.m.out.unwrap();
            self.m.extra[p] = main_out_l;
            self.m.extra[p + 1] = main_out_r;
            if p + 2 >= self.m.out_end.unwrap() {
                self.m.out = Some(0);
                self.m.out_end = Some(EXTRA_SIZE);
            } else {
                self.m.out = Some(p + 2);
            }
            k += 1;
            proof {
                assert(self.m@ =~= after_sample(after_samples(start, (k - 1) as nat)));
            }
        }
        proof {
            lemma_samples_ignore_phase(old(self)@, new_phase % 32, count as nat);
        }
    }
}

} // verus!
