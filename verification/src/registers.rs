//! Addresses of the DSP registers, and the envelope modes of a voice.
use vstd::prelude::*;

verus! {

/// Left main volume.
pub const R_MVOLL: usize = 0x0C;
/// Right main volume.
pub const R_MVOLR: usize = 0x1C;
/// Left echo volume.
pub const R_EVOLL: usize = 0x2C;
/// Right echo volume.
pub const R_EVOLR: usize = 0x3C;
/// Key-on flags, one bit per voice.
pub const R_KON: usize = 0x4C;
/// Key-off flags, one bit per voice.
pub const R_KOFF: usize = 0x5C;
/// Reset, mute, echo-write flags and noise clock.
pub const R_FLG: usize = 0x6C;
/// End-of-sample flags; any write clears it.
pub const R_ENDX: usize = 0x7C;
/// Echo feedback volume.
pub const R_EFB: usize = 0x0D;
/// Pitch modulation enable flags.
pub const R_PMON: usize = 0x2D;
/// Noise enable flags.
pub const R_NON: usize = 0x3D;
/// Echo enable flags.
pub const R_EON: usize = 0x4D;
/// Sample directory page.
pub const R_DIR: usize = 0x5D;
/// Echo ring buffer page.
pub const R_ESA: usize = 0x6D;
/// Echo delay.
pub const R_EDL: usize = 0x7D;
/// First echo FIR filter coefficient.
pub const R_FIR: usize = 0x0F;

/// Offsets of a voice's registers from its base address (voice number times 0x10).
pub const V_VOLL: usize = 0x00;
pub const V_VOLR: usize = 0x01;
pub const V_PITCHL: usize = 0x02;
pub const V_PITCHH: usize = 0x03;
pub const V_SRCN: usize = 0x04;
pub const V_ADSR0: usize = 0x05;
pub const V_ADSR1: usize = 0x06;
pub const V_GAIN: usize = 0x07;
pub const V_ENVX: usize = 0x08;
pub const V_OUTX: usize = 0x09;

/// The phase a voice's envelope is in.
#[derive(Debug, Copy, Clone, PartialEq, Eq)]
pub enum EnvMode {
    env_release,
    env_attack,
    env_decay,
    env_sustain,
}

} // verus!
