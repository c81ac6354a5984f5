//! Properties that hold across the DSP's operations.
use vstd::prelude::*;
use crate::registers::{R_KON, R_ENDX};
use crate::sizes::{REGISTER_COUNT, VOICE_COUNT, RAM_SIZE, EXTRA_SIZE};
use crate::state::{
    StateView, after_write, after_mute, after_soft_reset_common, surround_volumes, enabled_flag,
};
use crate::SPC_DSP::{
    after_init, after_load, after_sample, after_samples, after_run, lemma_sample_in_range,
    lemma_samples_ignore_phase, lemma_noise_step_range,
};
use crate::registers::{R_KOFF, R_FLG};
use crate::SPC_DSP::counter_masks;

verus! {

/// Register volumes are read as unsigned bytes, so their product is never
/// negative: while the surround threshold is at most 0 (it is 0 or -0x4000
/// whenever `disable_surround` set it), a voice's volumes are its register
/// values unchanged.
pub proof fn lemma_surround_inactive(l: u8, r: u8, threshold: i64)
    requires
        threshold <= 0,
    ensures
        surround_volumes(l as i64, r as i64, threshold) == (l as i64, r as i64),
{
    assert(0 <= (l as i64) * (r as i64)) by (nonlinear_arith);
}

/// Reading a register after writing it gives back the low byte of what was
/// written, except for ENDX, which every write clears; no other register
/// changes.
pub proof fn lemma_read_after_write(s: StateView, addr: int, data: i64)
    requires
        s.wf(),
        0 <= addr < REGISTER_COUNT,
    ensures
        after_write(s, addr, data).wf(),
        after_write(s, addr, data).regs[addr] == (if addr == R_ENDX {
            0u8
        } else {
            data as u8
        }),
        forall|a: int|
            0 <= a < REGISTER_COUNT && a != addr ==> after_write(s, addr, data).regs[a]
                == s.regs[a],
        addr == R_KON ==> after_write(s, addr, data).new_kon == data,
{
}

/// The voice's value of `x & enabled` for `enabled` 0 or -1.
proof fn lemma_mask_by_enabled(x: i64)
    ensures
        x & 0i64 == 0,
        x & -1i64 == x,
{
    assert(x & 0i64 == 0) by (bit_vector);
    assert(x & -1i64 == x) by (bit_vector);
}

/// Writing a volume register of a voice sets that volume to the written
/// byte when the voice is enabled, and to 0 when it is muted (surround
/// threshold at most 0).
pub proof fn lemma_volume_write(s: StateView, addr: int, data: i64)
    requires
        s.wf(),
        0 <= addr < REGISTER_COUNT,
        addr % 16 < 2,
        s.surround_threshold <= 0,
        s.voices[addr / 16].enabled == 0 || s.voices[addr / 16].enabled == -1,
    ensures
        after_write(s, addr, data).voices[addr / 16].volume[addr % 16] == (if s.voices[addr
            / 16].enabled == 0 {
            0
        } else {
            (data as u8) as i64
        }),
        after_write(s, addr, data).voices[addr / 16].enabled == s.voices[addr / 16].enabled,
{
    let t = after_write(s, addr, data);
    let base = addr - addr % 16;
    lemma_surround_inactive(t.regs[base], t.regs[base + 1], s.surround_threshold);
    lemma_mask_by_enabled(t.regs[base] as i64);
    lemma_mask_by_enabled(t.regs[base + 1] as i64);
    assert(base / 16 == addr / 16);
}

/// After `mute_voices(mask)`, voice `i` is muted exactly when bit `i` of
/// `mask` is set; a muted voice is silent and an enabled voice plays at the
/// volumes in its registers (surround threshold at most 0).
pub proof fn lemma_mute_silences(s: StateView, mask: i64, i: int)
    requires
        s.wf(),
        s.surround_threshold <= 0,
        0 <= i < VOICE_COUNT,
    ensures
        after_mute(s, mask).voices[i].enabled == enabled_flag(mask, i),
        after_mute(s, mask).voices[i].volume == (if (mask >> (i as usize)) & 1i64 == 1i64 {
            seq![0i64, 0i64]
        } else {
            seq![s.regs[16 * i] as i64, s.regs[16 * i + 1] as i64]
        }),
{
    lemma_surround_inactive(s.regs[16 * i], s.regs[16 * i + 1], s.surround_threshold);
    lemma_mask_by_enabled(s.regs[16 * i] as i64);
    lemma_mask_by_enabled(s.regs[16 * i + 1] as i64);
    assert(after_mute(s, mask).voices[i].volume =~= (if (mask >> (i as usize)) & 1i64 == 1i64 {
        seq![0i64, 0i64]
    } else {
        seq![s.regs[16 * i] as i64, s.regs[16 * i + 1] as i64]
    }));
}

/// Muting with the same mask twice is the same as muting once.
pub proof fn lemma_mute_idempotent(s: StateView, mask: i64)
    requires
        s.wf(),
    ensures
        after_mute(after_mute(s, mask), mask) == after_mute(s, mask),
{
    assert(after_mute(after_mute(s, mask), mask).voices =~= after_mute(s, mask).voices);
    assert(after_mute(after_mute(s, mask), mask) =~= after_mute(s, mask));
}

/// A second soft reset changes nothing.
pub proof fn lemma_soft_reset_idempotent(s: StateView)
    ensures
        after_soft_reset_common(after_soft_reset_common(s)) == after_soft_reset_common(s),
{
    assert(after_soft_reset_common(after_soft_reset_common(s)) =~= after_soft_reset_common(s));
}

/// Loading the same registers twice is the same as loading them once, and
/// after a load the registers are the ones loaded.
pub proof fn lemma_load_idempotent(s: StateView, regs: Seq<u8>)
    requires
        s.wf(),
        regs.len() == REGISTER_COUNT,
    ensures
        after_load(s, regs).regs == regs,
        after_load(after_load(s, regs), regs) == after_load(s, regs),
{
    let once = after_load(s, regs);
    let twice = after_load(once, regs);
    assert(twice.voices =~= once.voices);
    assert(twice =~= once);
}

/// After `init`, the RAM holds the first `RAM_SIZE` bytes of the image,
/// every voice is enabled and plays at the volumes in its registers, and
/// the output cursor is at the start of the built-in buffer.
pub proof fn lemma_init_unmutes(s: StateView, ram: Seq<u8>, i: int)
    requires
        s.wf(),
        ram.len() >= RAM_SIZE,
        s.surround_threshold <= 0,
        0 <= i < VOICE_COUNT,
    ensures
        after_init(s, ram).ram == ram.take(RAM_SIZE as int),
        after_init(s, ram).voices[i].enabled == -1,
        after_init(s, ram).voices[i].volume == seq![s.regs[16 * i] as i64, s.regs[16 * i + 1] as i64],
        after_init(s, ram).out_begin == Some(0usize),
        after_init(s, ram).out == Some(0usize),
{
    let with_ram = StateView { ram: ram.take(RAM_SIZE as int), ..s };
    let k = i as usize;
    assert((0i64 >> k) & 1i64 == 0i64) by (bit_vector);
    lemma_mute_silences(with_ram, 0, i);
}

/// `a` sample periods followed by `b` more are `a + b` sample periods.
pub proof fn lemma_samples_add(s: StateView, a: nat, b: nat)
    ensures
        after_samples(after_samples(s, a), b) == after_samples(s, a + b),
    decreases b,
{
    if b > 0 {
        lemma_samples_add(s, a, (b - 1) as nat);
        assert((a + b - 1) as nat == a + (b - 1) as nat);
    }
}

/// Running for `a` clocks and then for `b` clocks is the same as running for
/// `a + b` clocks.
pub proof fn lemma_run_split(s: StateView, a: int, b: int)
    requires
        0 <= s.phase + a,
        0 <= (s.phase + a) % 32 + b,
        s.phase + a + b <= i64::MAX,
    ensures
        after_run(after_run(s, a), b) == after_run(s, a + b),
{
    let t1 = s.phase + a;
    let n1 = (t1 / 32) as nat;
    let p1 = (t1 % 32) as i64;
    let t2 = p1 + b;
    let n2 = (t2 / 32) as nat;
    assert(t1 == 32 * (t1 / 32) + t1 % 32);
    assert(t2 == 32 * (t2 / 32) + t2 % 32);
    assert((s.phase + a + b) / 32 == t1 / 32 + t2 / 32 && (s.phase + a + b) % 32 == t2 % 32) by {
        let q = t1 / 32 + t2 / 32;
        let r = t2 % 32;
        assert(s.phase + a + b == 32 * q + r);
        assert(0 <= r < 32);
        vstd::arithmetic::div_mod::lemma_fundamental_div_mod_converse(s.phase + a + b, 32, q, r);
    }
    lemma_samples_ignore_phase(after_samples(s, n1), p1, n2);
    lemma_samples_add(s, n1, n2);
    assert(after_run(after_run(s, a), b) =~= after_run(s, a + b));
}

/// Sample periods keep a state in range (so the phase stays a position
/// within a period and the noise generator a 15-bit value), and once the
/// noise generator holds a non-zero value it never reaches 0.
pub proof fn lemma_samples_in_range(s: StateView, n: nat)
    requires
        s.in_range(),
    ensures
        after_samples(s, n).in_range(),
        after_samples(s, n).regs == s.regs,
        after_samples(s, n).phase == s.phase,
        s.noise > 0 ==> after_samples(s, n).noise > 0,
    decreases n,
{
    if n > 0 {
        let prev = after_samples(s, (n - 1) as nat);
        lemma_samples_in_range(s, (n - 1) as nat);
        lemma_sample_in_range(prev);
        lemma_noise_step_range(prev.noise);
    }
}

/// The key-on and key-off flags are read every other sample period: when
/// `every_other_sample` is 0 the pending key-on flags, less the voices
/// already keyed on, become the key-on flags and KOFF is latched; when it is
/// 1 they keep their values. The flag alternates.
pub proof fn lemma_key_on_every_other_sample(s: StateView)
    requires
        s.in_range(),
    ensures
        after_sample(s).every_other_sample == 1 - s.every_other_sample,
        s.every_other_sample == 0 ==> {
            &&& after_sample(s).kon == s.new_kon & !s.kon
            &&& after_sample(s).new_kon == after_sample(s).kon
            &&& after_sample(s).t_koff == s.regs[R_KOFF as int] as i64
        },
        s.every_other_sample == 1 ==> {
            &&& after_sample(s).kon == s.kon
            &&& after_sample(s).new_kon == s.new_kon
            &&& after_sample(s).t_koff == s.t_koff
        },
{
    lemma_sample_in_range(s);
}

/// Each sample period writes one left/right pair: after `n` periods the
/// output position has moved on by `2 * n` samples, modulo the length of the
/// built-in buffer, and the start of the output stays put.
pub proof fn lemma_samples_output(s: StateView, n: nat)
    requires
        s.in_range(),
        s.out is Some,
    ensures
        after_samples(s, n).out == Some(((s.out->0 + 2 * n) % EXTRA_SIZE as int) as usize),
        after_samples(s, n).out_begin == s.out_begin,
    decreases n,
{
    if n > 0 {
        let prev = after_samples(s, (n - 1) as nat);
        lemma_samples_output(s, (n - 1) as nat);
        lemma_samples_in_range(s, (n - 1) as nat);
        lemma_sample_in_range(prev);
        let p = s.out->0 as int;
        let q = (p + 2 * (n - 1)) % 16;
        assert((q + 2) % 16 == (p + 2 * n) % 16) by {
            vstd::arithmetic::div_mod::lemma_add_mod_noop(p + 2 * (n - 1), 2, 16);
            vstd::arithmetic::div_mod::lemma_mod_twice(2, 16);
        }
    }
}

/// After `run(clock_count)` from a state in range: the phase is the clock
/// position `(phase + clock_count) % 32` within a sample period, the state is
/// still in range (so the noise generator holds a 15-bit value), a non-zero
/// noise value is still non-zero, and one sample pair has been written for
/// each of the `(phase + clock_count) / 32` periods.
pub proof fn lemma_run_in_range(s: StateView, clock_count: int)
    requires
        s.in_range(),
        0 <= s.phase + clock_count,
    ensures
        after_run(s, clock_count).phase == (s.phase + clock_count) % 32,
        0 <= after_run(s, clock_count).phase < 32,
        after_run(s, clock_count).in_range(),
        s.noise > 0 ==> after_run(s, clock_count).noise > 0,
        s.out is Some ==> after_run(s, clock_count).out == Some(
            ((s.out->0 + 2 * ((s.phase + clock_count) / 32)) % EXTRA_SIZE as int) as usize,
        ),
{
    let n = ((s.phase + clock_count) / 32) as nat;
    lemma_samples_in_range(s, n);
    if s.out is Some {
        lemma_samples_output(s, n);
    }
}

/// The noise generator is a 15-bit linear feedback shift register clocked by
/// a counter: in a sample period, with `r` the low five bits of FLG, it steps
/// exactly when counter `counter_select[r]` has none of the bits of rate
/// `r`'s mask set. A step shifts the value right by one and puts bit 0 xor
/// bit 1 of the old value into bit 14; otherwise the value is kept.
pub proof fn lemma_noise_lfsr(s: StateView)
    requires
        s.in_range(),
    ensures
        ({
            let n = s.noise;
            let r = (s.regs[R_FLG as int] % 32) as int;
            let clocked = s.counters[s.counter_select[r] as int] & (counter_masks()[r] as usize)
                == 0usize;
            after_sample(s).noise == if clocked {
                (if n % 2 != (n / 2) % 2 {
                    0x4000i64
                } else {
                    0i64
                }) + n / 2
            } else {
                n as int
            }
        }),
{
    let n = s.noise;
    let flg = s.regs[R_FLG as int];
    assert(flg & 0x1Fu8 == flg % 32) by (bit_vector);
    assert((((n << 13u64) ^ (n << 14u64)) & 0x4000i64) ^ (n >> 1u64) == (if n % 2 != (n / 2) % 2 {
        0x4000i64
    } else {
        0i64
    }) + n / 2) by (bit_vector)
        requires
            0 <= n < 0x8000,
    ;
}

/// A write to a register sets the pending key-on flags to `data` when the
/// register is KON and leaves them alone otherwise; it never touches the
/// key-on flags themselves, nor any field but the registers, the pending
/// key-on flags and the volumes of the voice the register belongs to. A
/// register outside a voice's two volume registers changes no voice.
pub proof fn lemma_write_changes(s: StateView, addr: int, data: i64)
    requires
        s.wf(),
        0 <= addr < REGISTER_COUNT,
    ensures
        after_write(s, addr, data).new_kon == (if addr == 0x4C {
            data
        } else {
            s.new_kon
        }),
        after_write(s, addr, data).kon == s.kon,
        after_write(s, addr, data) == (StateView {
            regs: after_write(s, addr, data).regs,
            voices: after_write(s, addr, data).voices,
            new_kon: after_write(s, addr, data).new_kon,
            ..s
        }),
        after_write(s, addr, data).voices.len() == VOICE_COUNT,
        forall|v: int|
            0 <= v < VOICE_COUNT && (v != addr / 16 || addr % 16 >= 2) ==> #[trigger] after_write(
                s,
                addr,
                data,
            ).voices[v] == s.voices[v],
        forall|v: int|
            0 <= v < VOICE_COUNT && v == addr / 16 ==> (#[trigger] after_write(s, addr, data).voices[v]).enabled
                == s.voices[v].enabled,
{
    assert(after_write(s, addr, data) =~= StateView {
        regs: after_write(s, addr, data).regs,
        voices: after_write(s, addr, data).voices,
        new_kon: after_write(s, addr, data).new_kon,
        ..s
    });
}

/// Loading a register set makes the KON register the pending key-on flags,
/// whatever the other registers hold, and leaves the key-on flags alone; two
/// sample periods later the loaded KON voices not already keyed on are the
/// key-on flags, and KOFF is latched.
pub proof fn lemma_load_key_on(s: StateView, regs: Seq<u8>)
    requires
        s.wf(),
        regs.len() == REGISTER_COUNT,
    ensures
        after_load(s, regs).new_kon == regs[0x4C] as i64,
        after_load(s, regs).kon == s.kon,
        after_samples(after_load(s, regs), 2).kon == (regs[0x4C] as i64) & !s.kon,
        after_samples(after_load(s, regs), 2).new_kon == (regs[0x4C] as i64) & !s.kon,
        after_samples(after_load(s, regs), 2).t_koff == regs[0x5C] as i64,
{
    let l = after_load(s, regs);
    assert(1i64 ^ 1i64 == 0i64) by (bit_vector);
    assert(0i64 ^ 1i64 == 1i64) by (bit_vector);
    let one = after_samples(l, 1);
    assert(after_samples(l, 0) == l);
    assert(one == after_sample(l));
    assert(one.kon == l.kon && one.new_kon == l.new_kon && one.every_other_sample == 0);
    assert(one.regs == regs);
    assert(after_samples(l, 2) == after_sample(one));
}

} // verus!
