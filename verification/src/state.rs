//! The state of the DSP: its registers, voices, RAM and clock counters, and
//! the operations that change it directly.
use vstd::prelude::*;
use crate::sample_t;
use crate::registers::{R_KON, R_ENDX, V_VOLL, V_VOLR};
use crate::sizes::{REGISTER_COUNT, VOICE_COUNT, EXTRA_SIZE, RAM_SIZE, COUNTER_COUNT, RATE_COUNT};
use crate::voice::{Voice, VoiceView, initial_voice};

verus! {

/// The DSP together with the RAM it shares with the SMP.
///
/// The output cursor (`out_begin`, `out`, `out_end`) holds positions in the
/// built-in output buffer `extra`; it is `None` until an output is set.
pub struct State {
    pub regs: [u8; REGISTER_COUNT],
    pub every_other_sample: i64,
    pub kon: i64,
    pub noise: i64,
    pub echo_offset: i64,
    pub echo_length: i64,
    pub phase: i64,
    pub counters: [usize; COUNTER_COUNT],
    pub new_kon: i64,
    pub t_koff: i64,
    pub voices: [Voice; VOICE_COUNT],
    /// For each rate, which of `counters` it reads.
    pub counter_select: [usize; RATE_COUNT],
    /// 64K shared RAM between DSP and SMP.
    pub ram: [u8; RAM_SIZE],
    pub mute_mask: i64,
    pub surround_threshold: i64,
    pub out: Option<usize>,
    pub out_end: Option<usize>,
    pub out_begin: Option<usize>,
    pub extra: [sample_t; EXTRA_SIZE],
}

/// The state as plain values.
#[verifier::ext_equal]
pub struct StateView {
    pub regs: Seq<u8>,
    pub every_other_sample: i64,
    pub kon: i64,
    pub noise: i64,
    pub echo_offset: i64,
    pub echo_length: i64,
    pub phase: i64,
    pub counters: Seq<usize>,
    pub new_kon: i64,
    pub t_koff: i64,
    pub voices: Seq<VoiceView>,
    pub counter_select: Seq<usize>,
    pub ram: Seq<u8>,
    pub mute_mask: i64,
    pub surround_threshold: i64,
    pub out: Option<usize>,
    pub out_end: Option<usize>,
    pub out_begin: Option<usize>,
    pub extra: Seq<sample_t>,
}

impl View for State {
    type V = StateView;

    open spec fn view(&self) -> StateView {
        StateView {
            regs: self.regs@,
            every_other_sample: self.every_other_sample,
            kon: self.kon,
            noise: self.noise,
            echo_offset: self.echo_offset,
            echo_length: self.echo_length,
            phase: self.phase,
            counters: self.counters@,
            new_kon: self.new_kon,
            t_koff: self.t_koff,
            voices: self.voices@.map_values(|v: Voice| v@),
            counter_select: self.counter_select@,
            ram: self.ram@,
            mute_mask: self.mute_mask,
            surround_threshold: self.surround_threshold,
            out: self.out,
            out_end: self.out_end,
            out_begin: self.out_begin,
            extra: self.extra@,
        }
    }
}

impl StateView {
    /// Every sequence has the length of the array it stands for.
    pub open spec fn wf(self) -> bool {
        &&& self.regs.len() == REGISTER_COUNT
        &&& self.counters.len() == COUNTER_COUNT
        &&& self.voices.len() == VOICE_COUNT
        &&& self.counter_select.len() == RATE_COUNT
        &&& self.ram.len() == RAM_SIZE
        &&& self.extra.len() == EXTRA_SIZE
    }

    /// What every state an emulator can reach satisfies: the lengths are
    /// right, every rate selects an existing counter, the phase is a clock
    /// position within a 32-clock sample period, the noise generator holds a
    /// 15-bit value, `every_other_sample` is 0 or 1, the surround
    /// threshold is at most 0, and the output cursor is either unset or an
    /// even position within the built-in buffer.
    pub open spec fn in_range(self) -> bool {
        &&& self.wf()
        &&& forall|r: int| 0 <= r < RATE_COUNT ==> #[trigger] self.counter_select[r] < COUNTER_COUNT
        &&& 0 <= self.phase < 32
        &&& 0 <= self.noise < 0x8000
        &&& (self.every_other_sample == 0 || self.every_other_sample == 1)
        &&& self.surround_threshold <= 0
        &&& self.output_in_range()
    }

    /// The output cursor is unset, or spans the built-in buffer with the
    /// position at an even index inside it.
    pub open spec fn output_in_range(self) -> bool {
        ||| (self.out is None && self.out_begin is None && self.out_end is None)
        ||| {
            &&& self.out_begin == Some(0usize)
            &&& self.out_end == Some(EXTRA_SIZE)
            &&& self.out matches Some(p) && p % 2 == 0 && p < EXTRA_SIZE
        }
    }
}

/// The state of a DSP that was just created: everything zero, every voice
/// in its initial state, no output set.
pub open spec fn power_on_state() -> StateView {
    StateView {
        regs: Seq::new(REGISTER_COUNT as nat, |i: int| 0u8),
        every_other_sample: 0,
        kon: 0,
        noise: 0,
        echo_offset: 0,
        echo_length: 0,
        phase: 0,
        counters: Seq::new(COUNTER_COUNT as nat, |i: int| 0usize),
        new_kon: 0,
        t_koff: 0,
        voices: Seq::new(VOICE_COUNT as nat, |i: int| initial_voice()),
        counter_select: Seq::new(RATE_COUNT as nat, |i: int| 0usize),
        ram: Seq::new(RAM_SIZE as nat, |i: int| 0u8),
        mute_mask: 0,
        surround_threshold: 0,
        out: None,
        out_end: None,
        out_begin: None,
        extra: Seq::new(EXTRA_SIZE as nat, |i: int| 0i16),
    }
}

/// The left and right volume of a voice from its two volume registers `l`
/// and `r`: when `l * r` is below the surround threshold, each becomes
/// `x ^ (x >> 7)`, which for a register byte flips bit 0 when bit 7 is set.
pub open spec fn surround_volumes(l: i64, r: i64, threshold: i64) -> (i64, i64) {
    if l * r < threshold {
        (l ^ (l >> 7), r ^ (r >> 7))
    } else {
        (l, r)
    }
}

/// The voice `addr / 16` with its volumes taken from the register pair at
/// `addr`, `addr + 1`, each masked by the voice's `enabled`.
pub open spec fn refreshed_voice(s: StateView, addr: int) -> VoiceView {
    let v = s.voices[addr / 16];
    let lr = surround_volumes(s.regs[addr] as i64, s.regs[addr + 1] as i64, s.surround_threshold);
    VoiceView { volume: seq![lr.0 & v.enabled, lr.1 & v.enabled], ..v }
}

/// `s` after the volumes of voice `addr / 16` are refreshed from the
/// registers at `addr`.
pub open spec fn with_voice_volume(s: StateView, addr: int) -> StateView {
    StateView { voices: s.voices.update(addr / 16, refreshed_voice(s, addr)), ..s }
}

/// `s` after `data` is written to register `addr`: the register takes the
/// low byte of `data`; a write to a voice's volume register refreshes that
/// voice's volumes; a write to KON sets the pending key-on flags to `data`;
/// a write to ENDX clears it.
pub open spec fn after_write(s: StateView, addr: int, data: i64) -> StateView {
    let s1 = StateView { regs: s.regs.update(addr, data as u8), ..s };
    let low = addr % 16;
    if low < 2 {
        with_voice_volume(s1, addr - low)
    } else if addr == R_KON {
        StateView { new_kon: data, ..s1 }
    } else if addr == R_ENDX {
        StateView { regs: s1.regs.update(addr, 0u8), ..s1 }
    } else {
        s1
    }
}

/// The `enabled` value of voice `i` under the mute mask `mask`: 0 (muted)
/// when bit `i` of `mask` is set, -1 (enabled) when it is clear.
pub open spec fn enabled_flag(mask: i64, i: int) -> i64 {
    if (mask >> (i as usize)) & 1i64 == 1i64 {
        0
    } else {
        -1i64
    }
}

/// Voice `i` of `s` after muting with `mask`: its `enabled` follows bit `i`
/// of `mask` and its volumes are refreshed from its registers.
pub open spec fn muted_voice(s: StateView, mask: i64, i: int) -> VoiceView {
    let e = enabled_flag(mask, i);
    let lr = surround_volumes(
        s.regs[16 * i] as i64,
        s.regs[16 * i + 1] as i64,
        s.surround_threshold,
    );
    VoiceView { enabled: e, volume: seq![lr.0 & e, lr.1 & e], ..s.voices[i] }
}

/// `s` after `mute_voices(mask)`.
pub open spec fn after_mute(s: StateView, mask: i64) -> StateView {
    StateView {
        mute_mask: mask,
        voices: Seq::new(VOICE_COUNT as nat, |i: int| muted_voice(s, mask, i)),
        ..s
    }
}

/// The clock counters after `init_counter`; counter 2 has every bit set
/// but the low five.
pub open spec fn initial_counters() -> Seq<usize> {
    seq![1usize, 0usize, !0x1Fusize, 0x0Busize]
}

/// The counter each rate reads after `init_counter`: rate 0 reads counter 0;
/// rates 1, 2, 3, 4, ... read counters 1, 3, 2, 1, 3, 2, ... in turn.
pub open spec fn initial_counter_select() -> Seq<usize> {
    Seq::new(
        RATE_COUNT as nat,
        |i: int|
            if i == 0 {
                0usize
            } else {
                (3 - (i + 1) % 3) as usize
            },
    )
}

/// `s` after `init_counter`.
pub open spec fn after_init_counter(s: StateView) -> StateView {
    StateView { counters: initial_counters(), counter_select: initial_counter_select(), ..s }
}

/// `s` after `soft_reset_common`.
pub open spec fn after_soft_reset_common(s: StateView) -> StateView {
    after_init_counter(
        StateView { noise: 0x4000, every_other_sample: 1, echo_offset: 0, phase: 0, ..s },
    )
}

/// `s` after the output is set: the cursor spans the whole built-in buffer.
pub open spec fn after_set_output(s: StateView) -> StateView {
    StateView { out_begin: Some(0), out: Some(0), out_end: Some(EXTRA_SIZE), ..s }
}

/// The surround threshold that `disable_surround(disable)` sets.
pub open spec fn surround_threshold_for(disable: bool) -> i64 {
    if disable {
        0
    } else {
        -0x4000i64
    }
}

/// For a register address, its low nibble, the base address of the voice
/// it belongs to, and that voice's number.
proof fn lemma_low_nibble(addr: i64)
    requires
        0 <= addr < 128,
    ensures
        addr & 0x0F == addr % 16,
        (addr & 0x0F) ^ addr == addr - addr % 16,
        addr >> 4 == addr / 16,
{
    assert(addr & 0x0F == addr % 16) by (bit_vector)
        requires 0 <= addr < 128;
    assert((addr & 0x0F) ^ addr == addr - addr % 16) by (bit_vector)
        requires 0 <= addr < 128;
    assert(addr >> 4 == addr / 16) by (bit_vector)
        requires 0 <= addr < 128;
}

impl State {
    pub fn new() -> (s: State)
        ensures
            s@ == power_on_state(),
    {
        let v = Voice::new();
        let s = State {
            regs: [0u8; REGISTER_COUNT],
            every_other_sample: 0,
            kon: 0,
            noise: 0,
            echo_offset: 0,
            echo_length: 0,
            phase: 0,
            counters: [0usize; COUNTER_COUNT],
            new_kon: 0,
            t_koff: 0,
            voices: [v; VOICE_COUNT],
            counter_select: [0usize; RATE_COUNT],
            ram: [0u8; RAM_SIZE],
            mute_mask: 0,
            surround_threshold: 0,
            out: None,
            out_end: None,
            out_begin: None,
            extra: [0i16; EXTRA_SIZE],
        };
        assert(s@.regs =~= power_on_state().regs);
        assert(s@.counters =~= power_on_state().counters);
        assert(s@.voices =~= power_on_state().voices);
        assert(s@.counter_select =~= power_on_state().counter_select);
        assert(s@.ram =~= power_on_state().ram);
        assert(s@.extra =~= power_on_state().extra);
        s
    }

    /// Refreshes the volumes of voice `addr >> 4` from the register pair at
    /// `addr`, `addr + 1`.
    pub fn update_voice_vol(&mut self, addr: i64)
        requires
            0 <= addr,
            addr + 1 < REGISTER_COUNT,
        ensures
            final(self)@ == with_voice_volume(old(self)@, addr as int),
        no_unwind
    {
        let mut l: i64 = self.regs[(addr + V_VOLL as i64) as usize] as i64;
        let mut r: i64 = self.regs[(addr + V_VOLR as i64) as usize] as i64;
        assert(0 <= l * r <= 255 * 255) by (nonlinear_arith)
            requires
                0 <= l <= 255,
                0 <= r <= 255,
        ;
        if l * r < self.surround_threshold {
            // below the surround threshold: flip bit 0 of a value with bit 7 set
            l ^= l >> 7;
            r ^= r >> 7;
        }
        proof {
            lemma_low_nibble(addr);
        }
        let index: usize = (addr >> 4) as usize;
        let mut v = self.voices[index];
        let enabled: i64 = v.enabled;
        v.volume = [l & enabled, r & enabled];
        self.voices[index] = v;
        proof {
            let ghost s0 = old(self)@;
            assert(v@.volume =~= refreshed_voice(s0, addr as int).volume);
            assert(v@ == refreshed_voice(s0, addr as int));
            assert(self@.voices =~= with_voice_volume(s0, addr as int).voices);
        }
    }

    /// Reads register `addr`.
    pub fn read(&self, addr: i64) -> (value: u8)
        requires
            0 <= addr < REGISTER_COUNT,
        ensures
            value == self@.regs[addr as int],
    {
        self.regs[addr as usize]
    }

    /// Writes the low byte of `data` to register `addr`, with the side
    /// effects that `after_write` describes.
    pub fn write(&mut self, addr: i64, data: i64)
        requires
            0 <= addr < REGISTER_COUNT,
        ensures
            final(self)@ == after_write(old(self)@, addr as int, data),
    {
        self.regs[addr as usize] = data as u8;
        let low: i64 = addr & 0x0F;
        proof {
            lemma_low_nibble(addr);
        }
        // voice volumes
        if low < 0x2 {
            self.update_voice_vol(low ^ addr);
        } else if low == 0xC {
            if addr == R_KON as i64 {
                self.new_kon = data;
            }
            // always cleared, regardless of data written
            if addr == R_ENDX as i64 {
                self.regs[R_ENDX] = 0;
            }
        }
        assert(self@ =~= after_write(old(self)@, addr as int, data));
    }

    /// Sets the surround threshold: 0 when `disable`, -0x4000 otherwise.
    pub fn disable_surround(&mut self, disable: bool)
        ensures
            final(self)@ == (StateView {
                surround_threshold: surround_threshold_for(disable),
                ..old(self)@
            }),
        no_unwind
    {
        if disable {
            self.surround_threshold = 0;
        } else {
            self.surround_threshold = -0x4000;
        }
    }

    /// Mutes the voices whose bit is set in `mask`, enables the others, and
    /// refreshes every voice's volumes.
    pub fn mute_voices(&mut self, mask: i64)
        ensures
            final(self)@ == after_mute(old(self)@, mask),
        no_unwind
    {
        self.mute_mask = mask;
        let mut i: usize = 0;
        while i < VOICE_COUNT
            invariant
                0 <= i <= VOICE_COUNT,
                self@ == (StateView { voices: self@.voices, mute_mask: mask, ..old(self)@ }),
                self@.voices.len() == VOICE_COUNT,
                forall|j: int| 0 <= j < i ==> self@.voices[j] == muted_voice(old(self)@, mask, j),
                forall|j: int| i <= j < VOICE_COUNT ==> self@.voices[j] == old(self)@.voices[j],
            decreases VOICE_COUNT - i,
        {
            let bit: i64 = (mask >> i) & 1;
            assert(bit == 0 || bit == 1) by (bit_vector)
                requires bit == (mask >> i) & 1;
            let mut v = self.voices[i];
            v.enabled = bit - 1;
            self.voices[i] = v;
            assert(v.enabled == enabled_flag(mask, i as int));
            self.update_voice_vol((i * 0x10) as i64);
            proof {
                assert((i * 0x10) as int / 16 == i as int);
                assert(self@.voices[i as int] == muted_voice(old(self)@, mask, i as int));
            }
            i += 1;
        }
        assert(self@ =~= after_mute(old(self)@, mask));
    }

    /// Replaces the RAM.
    pub fn set_ram(&mut self, ram_64K: [u8; RAM_SIZE])
        ensures
            final(self)@ == (StateView { ram: ram_64K@, ..old(self)@ }),
        no_unwind
    {
        self.ram = ram_64K;
    }

    /// The built-in output buffer.
    pub fn extra(&self) -> (samples: [sample_t; EXTRA_SIZE])
        ensures
            samples@ == self@.extra,
    {
        self.extra
    }

    pub fn get_phase(&self) -> (phase: i64)
        ensures
            phase == self@.phase,
    {
        self.phase
    }

    pub fn set_phase(&mut self, new_phase: i64)
        ensures
            final(self)@ == (StateView { phase: new_phase, ..old(self)@ }),
        no_unwind
    {
        self.phase = new_phase;
    }

    /// The position in the output buffer where the next sample goes.
    pub fn out_pos(&self) -> (pos: usize)
        requires
            self@.out is Some,
        ensures
            pos == self@.out->0,
    {
        self.out.unwrap()
    }

    /// The number of samples written since the output was set, as a count
    /// rather than a position: the distance from the start of the output
    /// buffer to the output position, wrapping around `usize`.
    pub fn sample_count(&self) -> (count: usize)
        requires
            self@.out is Some,
            self@.out_begin is Some,
        ensures
            count == (if self@.out->0 >= self@.out_begin->0 {
                self@.out->0 - self@.out_begin->0
            } else {
                self@.out->0 - self@.out_begin->0 + usize::MAX + 1
            }),
    {
        let out = self.out.unwrap();
        let begin = self.out_begin.unwrap();
        out.wrapping_sub(begin)
    }

    /// Sets the output to the built-in buffer `extra`, whatever `out_size`
    /// is; an odd `out_size` is refused.
    pub fn set_output(&mut self, out_size: i64)
        requires
            out_size % 2 == 0,
        ensures
            final(self)@ == after_set_output(old(self)@),
        no_unwind
    {
        self.out_begin = Some(0);
        self.out = Some(0);
        self.out_end = Some(EXTRA_SIZE);
    }

    /// Sets the clock counters and the counter each rate reads.
    pub fn init_counter(&mut self)
        ensures
            final(self)@ == after_init_counter(old(self)@),
        no_unwind
    {
        self.counters[0] = 1;
        self.counters[1] = 0;
        self.counters[2] = (!0usize) << 5usize;  // all bits set but the low 5
        self.counters[3] = 0x0B;
        proof {
            assert((!0usize) << 5usize == !0x1Fusize) by (bit_vector);
            assert(self@.counters =~= initial_counters());
        }
        let ghost s1 = self@;
        let mut n: i32 = 2;
        let mut i: usize = 0;
        while i < RATE_COUNT
            invariant
                0 <= i <= RATE_COUNT,
                n == 3 - (i + 1) % 3,
                self@ == (StateView { counter_select: self@.counter_select, ..s1 }),
                self@.counter_select.len() == RATE_COUNT,
                forall|j: int| 0 <= j < i ==> self@.counter_select[j] == (3 - (j + 1) % 3) as usize,
            decreases RATE_COUNT - i,
        {
            self.counter_select[i] = n as usize;
            n -= 1;
            if n == 0 {
                n = 3;
            }
            i += 1;
        }
        self.counter_select[0] = 0;
        self.counter_select[30] = 2;
        assert(self@.counter_select =~= initial_counter_select());
        assert(self@ =~= after_init_counter(old(self)@));
    }

    /// Reads clock counter `i` and stores it back as it was read: the rate
    /// step computed from it does not reach the counter.
    pub fn run_counter(&mut self, i: i64)
        requires
            0 <= i < COUNTER_COUNT,
        ensures
            final(self)@ == old(self)@,
        no_unwind
    {
        let n: usize = self.counters[i as usize];
        self.counters[i as usize] = n;
        assert(self@.counters =~= old(self)@.counters);
    }

    /// Resets the noise generator, echo position, phase and clock counters.
    pub fn soft_reset_common(&mut self)
        ensures
            final(self)@ == after_soft_reset_common(old(self)@),
        no_unwind
    {
        self.noise = 0x4000;
        self.every_other_sample = 1;
        self.echo_offset = 0;
        self.phase = 0;
        self.init_counter();
    }
}

} // verus!
