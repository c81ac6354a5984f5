use lib::registers::{EnvMode, R_ENDX, R_KON};
use lib::state::State;
use lib::voice::Voice;
use lib::SPC_DSP::{Emulator, SPC_DSP};

#[test]
fn voice_new_starts_released_at_volume_64() {
    let v = Voice::new();
    assert_eq!(v.buf, [0i64; 24]);
    assert_eq!(v.buf_pos, 0);
    assert_eq!(v.interp_pos, 0);
    assert_eq!(v.brr_addr, 0);
    assert_eq!(v.brr_offset, 0);
    assert_eq!(v.kon_delay, 0);
    assert_eq!(v.env_mode, EnvMode::env_release);
    assert_eq!(v.env, 0);
    assert_eq!(v.hidden_env, 0);
    assert_eq!(v.volume, [64, 64]);
    assert_eq!(v.enabled, 0);
}

#[test]
fn state_new_is_all_zero() {
    let s = State::new();
    assert!(s.regs.iter().all(|&r| r == 0));
    assert_eq!(s.ram.len(), 0xFFFF);
    assert!(s.ram.iter().all(|&b| b == 0));
    assert_eq!(s.counters, [0usize; 4]);
    assert_eq!(s.counter_select, [0usize; 32]);
    assert_eq!(s.get_phase(), 0);
    assert_eq!(s.mute_mask, 0);
    assert_eq!(s.surround_threshold, 0);
    assert_eq!(s.out, None);
    assert_eq!(s.out_begin, None);
    assert_eq!(s.out_end, None);
    assert_eq!(s.extra(), [0i16; 16]);
    for v in s.voices.iter() {
        assert_eq!(v.volume, [64, 64]);
        assert_eq!(v.enabled, 0);
    }
}

#[test]
fn read_gives_back_low_byte_of_write() {
    let mut s = State::new();
    s.write(0x2C, 0x1FF);
    assert_eq!(s.read(0x2C), 0xFF);
    s.write(0x05, -1);
    assert_eq!(s.read(0x05), 0xFF);
    assert_eq!(s.read(0x06), 0);
}

#[test]
fn write_to_endx_clears_it() {
    let mut s = State::new();
    s.write(R_ENDX as i64, 0x55);
    assert_eq!(s.read(R_ENDX as i64), 0);
}

#[test]
fn write_to_kon_sets_pending_key_on() {
    let mut s = State::new();
    s.write(R_KON as i64, 0x12);
    assert_eq!(s.new_kon, 0x12);
    assert_eq!(s.read(R_KON as i64), 0x12);
}

#[test]
fn write_volume_of_enabled_voice_sets_volume() {
    let mut s = State::new();
    s.mute_voices(0);
    s.write(0x10, 100);
    assert_eq!(s.voices[1].volume, [100, 0]);
    s.write(0x11, 200);
    assert_eq!(s.voices[1].volume, [100, 200]);
    assert_eq!(s.voices[0].volume, [0, 0]);
}

#[test]
fn write_volume_of_muted_voice_stays_silent() {
    let mut s = State::new();
    s.mute_voices(0b10);
    s.write(0x10, 100);
    assert_eq!(s.voices[1].volume, [0, 0]);
    assert_eq!(s.read(0x10), 100);
}

#[test]
fn write_pitch_leaves_volumes_alone() {
    let mut s = State::new();
    s.write(0x12, 7);
    assert_eq!(s.voices[1].volume, [64, 64]);
}

#[test]
fn mute_voices_follows_mask_bits() {
    let mut s = State::new();
    for i in 0..8 {
        s.write((i * 0x10) as i64, 10 + i as i64);
        s.write((i * 0x10 + 1) as i64, 20 + i as i64);
    }
    s.mute_voices(0b1010_0101);
    assert_eq!(s.mute_mask, 0b1010_0101);
    for i in 0..8usize {
        if (0b1010_0101 >> i) & 1 == 1 {
            assert_eq!(s.voices[i].enabled, 0);
            assert_eq!(s.voices[i].volume, [0, 0]);
        } else {
            assert_eq!(s.voices[i].enabled, -1);
            assert_eq!(s.voices[i].volume, [10 + i as i64, 20 + i as i64]);
        }
    }
}

#[test]
fn mute_voices_twice_is_once() {
    let mut s = State::new();
    s.write(0x30, 33);
    s.mute_voices(0b0110);
    let first: Vec<[i64; 2]> = s.voices.iter().map(|v| v.volume).collect();
    s.mute_voices(0b0110);
    let second: Vec<[i64; 2]> = s.voices.iter().map(|v| v.volume).collect();
    assert_eq!(first, second);
    assert_eq!(s.voices[3].volume, [33, 0]);
}

#[test]
fn disable_surround_sets_threshold() {
    let mut s = State::new();
    s.disable_surround(false);
    assert_eq!(s.surround_threshold, -0x4000);
    s.disable_surround(true);
    assert_eq!(s.surround_threshold, 0);
}

#[test]
fn surround_does_not_flip_register_volumes() {
    let mut s = State::new();
    s.disable_surround(false);
    s.mute_voices(0);
    s.write(0x00, 0x80);
    s.write(0x01, 0xFF);
    assert_eq!(s.voices[0].volume, [0x80, 0xFF]);
}

#[test]
fn update_voice_vol_reads_register_pair() {
    let mut s = State::new();
    s.regs[0x20] = 3;
    s.regs[0x21] = 4;
    s.voices[2].enabled = -1;
    s.update_voice_vol(0x20);
    assert_eq!(s.voices[2].volume, [3, 4]);
    s.surround_threshold = 100;
    s.update_voice_vol(0x20);
    assert_eq!(s.voices[2].volume, [3, 4]);
    s.regs[0x20] = 0x85;
    s.regs[0x21] = 0;
    s.update_voice_vol(0x20);
    assert_eq!(s.voices[2].volume, [0x85 ^ 1, 0]);
}

#[test]
fn init_counter_sets_counters_and_rates() {
    let mut s = State::new();
    s.init_counter();
    assert_eq!(s.counters, [1, 0, !0x1Fusize, 0x0B]);
    let expected: Vec<usize> = (0..32usize)
        .map(|i| if i == 0 { 0 } else { 3 - (i + 1) % 3 })
        .collect();
    assert_eq!(s.counter_select.to_vec(), expected);
    assert_eq!(&s.counter_select[..7], &[0, 1, 3, 2, 1, 3, 2]);
    assert_eq!(s.counter_select[30], 2);
    assert_eq!(s.counter_select[31], 1);
}

#[test]
fn run_counter_keeps_counters() {
    let mut s = State::new();
    s.init_counter();
    for i in 0..4 {
        s.run_counter(i);
    }
    assert_eq!(s.counters, [1, 0, !0x1Fusize, 0x0B]);
}

#[test]
fn soft_reset_common_resets_noise_and_phase() {
    let mut s = State::new();
    s.set_phase(17);
    s.noise = 3;
    s.echo_offset = 9;
    s.soft_reset_common();
    assert_eq!(s.noise, 0x4000);
    assert_eq!(s.every_other_sample, 1);
    assert_eq!(s.echo_offset, 0);
    assert_eq!(s.get_phase(), 0);
    assert_eq!(s.counters, [1, 0, !0x1Fusize, 0x0B]);
}

#[test]
fn set_output_uses_builtin_buffer() {
    let mut s = State::new();
    s.set_output(1024);
    assert_eq!(s.out_begin, Some(0));
    assert_eq!(s.out_pos(), 0);
    assert_eq!(s.out_end, Some(16));
    assert_eq!(s.sample_count(), 0);
}

#[test]
fn sample_count_is_distance_from_start() {
    let mut s = State::new();
    s.set_output(0);
    s.out = Some(6);
    assert_eq!(s.sample_count(), 6);
    s.out_begin = Some(8);
    assert_eq!(s.sample_count(), usize::MAX - 1);
}

#[test]
fn phase_and_ram_setters() {
    let mut s = State::new();
    s.set_phase(-5);
    assert_eq!(s.get_phase(), -5);
    let mut ram = [0u8; 0xFFFF];
    ram[0x1234] = 0xAB;
    s.set_ram(ram);
    assert_eq!(s.ram[0x1234], 0xAB);
    assert_eq!(s.ram[0x1235], 0);
}

fn ready_dsp(regs: [u8; 128]) -> SPC_DSP {
    let mut dsp = SPC_DSP::new();
    dsp.init(&vec![0u8; 0x10000]);
    dsp.load(regs);
    dsp
}

#[test]
fn dsp_new_is_power_on_state() {
    let dsp = SPC_DSP::new();
    let s = dsp.state();
    assert_eq!(s.get_phase(), 0);
    assert_eq!(s.noise, 0);
    assert_eq!(s.every_other_sample, 0);
    assert_eq!(s.out, None);
    assert!(s.regs.iter().all(|&r| r == 0));
}

#[test]
fn dsp_runs_within_a_sample_period() {
    let mut dsp = SPC_DSP::new();
    dsp.run(0);
    dsp.run(10);
    dsp.run(21);
    assert_eq!(dsp.state().get_phase(), 31);
    assert_eq!(dsp.state().every_other_sample, 0);
}

#[test]
fn dsp_init_installs_ram_and_unmutes() {
    let mut dsp = SPC_DSP::new();
    let mut image = vec![0u8; 0x10000];
    image[0x200] = 7;
    image[0xFFFE] = 9;
    dsp.init(&image);
    let s = dsp.state();
    assert_eq!(s.ram[0x200], 7);
    assert_eq!(s.ram[0xFFFE], 9);
    assert_eq!(s.surround_threshold, -0x4000);
    assert_eq!(s.out_pos(), 0);
    assert_eq!(s.out_end, Some(16));
    for v in s.voices.iter() {
        assert_eq!(v.enabled, -1);
        assert_eq!(v.volume, [0, 0]);
    }
}

#[test]
fn dsp_load_sets_registers_and_soft_resets() {
    let mut dsp = SPC_DSP::new();
    let mut regs = [0u8; 128];
    regs[R_KON] = 0x05;
    regs[0x20] = 40;
    dsp.load(regs);
    let s = dsp.state();
    assert_eq!(s.regs, regs);
    assert_eq!(s.new_kon, 5);
    assert_eq!(s.noise, 0x4000);
    assert_eq!(s.every_other_sample, 1);
    assert_eq!(s.get_phase(), 0);
    assert_eq!(s.counters, [1, 0, !0x1Fusize, 0x0B]);
    for v in s.voices.iter() {
        assert_eq!(v.brr_offset, 1);
        assert_eq!(v.buf_pos, 0);
    }
    // the mute mask (0) is applied again, which enables every voice
    assert_eq!(s.voices[2].enabled, -1);
    assert_eq!(s.voices[2].volume, [40, 0]);
}

#[test]
fn dsp_run_steps_noise_and_latches_key_on() {
    let mut regs = [0u8; 128];
    regs[R_KON] = 0x05;
    regs[0x5C] = 0x22; // KOFF
    regs[0x6C] = 0x1F; // FLG: noise at the fastest rate
    let mut dsp = ready_dsp(regs);
    dsp.run(64);
    {
        let s = dsp.state();
        assert_eq!(s.get_phase(), 0);
        assert_eq!(s.every_other_sample, 1);
        assert_eq!(s.kon, 5);
        assert_eq!(s.new_kon, 5);
        assert_eq!(s.t_koff, 0x22);
        assert_eq!(s.noise, 0x1000);
    }
    dsp.run(40);
    {
        let s = dsp.state();
        assert_eq!(s.get_phase(), 8);
        assert_eq!(s.every_other_sample, 0);
        assert_eq!(s.kon, 5);
        assert_eq!(s.noise, 0x800);
    }
    dsp.run(24);
    let s = dsp.state();
    assert_eq!(s.get_phase(), 0);
    assert_eq!(s.every_other_sample, 1);
    assert_eq!(s.kon, 0);
    assert_eq!(s.new_kon, 0);
    assert_eq!(s.noise, 0x400);
}

#[test]
fn dsp_noise_waits_for_its_rate() {
    let mut regs = [0u8; 128];
    regs[0x6C] = 0x00; // FLG: noise rate 0, counter 0 holds 1, mask 7
    let mut dsp = ready_dsp(regs);
    dsp.run(32 * 5 + 3);
    assert_eq!(dsp.state().noise, 0x4000);
    assert_eq!(dsp.state().get_phase(), 3);
}

#[test]
fn dsp_noise_feeds_back_low_bits() {
    let mut regs = [0u8; 128];
    regs[0x6C] = 0x1F;
    let mut dsp = ready_dsp(regs);
    // 0x4000 -> 0x2000 -> ... -> 0x0002 after 13 steps; then bit 1 feeds bit 14
    dsp.run(32 * 13);
    assert_eq!(dsp.state().noise, 0x0002);
    dsp.run(32);
    assert_eq!(dsp.state().noise, 0x4001);
    dsp.run(32);
    assert_eq!(dsp.state().noise, 0x6000);
}

#[test]
fn dsp_two_runs_equal_one() {
    let mut regs = [0u8; 128];
    regs[R_KON] = 0x81;
    regs[0x6C] = 0x1F;
    let mut a = ready_dsp(regs);
    a.run(100);
    a.run(70);
    let mut b = ready_dsp(regs);
    b.run(170);
    let (sa, sb) = (a.state(), b.state());
    assert_eq!(sa.get_phase(), 170 % 32);
    assert_eq!(sa.get_phase(), sb.get_phase());
    assert_eq!(sa.noise, sb.noise);
    assert_eq!(sa.kon, sb.kon);
    assert_eq!(sa.new_kon, sb.new_kon);
    assert_eq!(sa.t_koff, sb.t_koff);
    assert_eq!(sa.every_other_sample, sb.every_other_sample);
    assert_eq!(sa.out_pos(), 2 * (170 / 32));
    assert_eq!(sa.out_pos(), sb.out_pos());
    assert_eq!(sa.sample_count(), sb.sample_count());
}

#[test]
fn dsp_run_writes_one_pair_per_period() {
    let mut dsp = ready_dsp([0u8; 128]);
    dsp.run(31);
    assert_eq!(dsp.state().out_pos(), 0);
    dsp.run(1);
    assert_eq!(dsp.state().out_pos(), 2);
    assert_eq!(dsp.state().sample_count(), 2);
    dsp.run(64 + 5);
    assert_eq!(dsp.state().out_pos(), 6);
    assert_eq!(dsp.state().get_phase(), 5);
    assert_eq!(dsp.state().extra(), [0i16; 16]);
}

#[test]
fn dsp_output_wraps_at_buffer_end() {
    let mut dsp = ready_dsp([0u8; 128]);
    dsp.run(32 * 7);
    assert_eq!(dsp.state().out_pos(), 14);
    dsp.run(32);
    assert_eq!(dsp.state().out_pos(), 0);
    assert_eq!(dsp.state().out_end, Some(16));
    assert_eq!(dsp.state().out_begin, Some(0));
    dsp.run(32 * 3);
    assert_eq!(dsp.state().out_pos(), 6);
}

#[test]
fn soft_reset_common_twice_is_once() {
    let mut s = State::new();
    s.soft_reset_common();
    let counters = s.counters;
    let select = s.counter_select;
    s.soft_reset_common();
    assert_eq!(s.counters, counters);
    assert_eq!(s.counter_select, select);
    assert_eq!(s.noise, 0x4000);
    assert_eq!(s.get_phase(), 0);
}
