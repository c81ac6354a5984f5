//! One of the DSP's eight voices.
use vstd::prelude::*;
use crate::registers::EnvMode;
use crate::sizes::VOICE_BUF_SIZE;

verus! {

/// The state of one voice.
#[derive(Debug, Copy, Clone)]
pub struct Voice {
    /// Decoded samples.
    pub buf: [i64; VOICE_BUF_SIZE],
    /// Place in `buf` where the next samples will be decoded.
    pub buf_pos: usize,
    /// Relative fractional position in the sample (0x1000 = 1.0).
    pub interp_pos: i64,
    /// Address of the current BRR block.
    pub brr_addr: i64,
    /// Current decoding offset in the BRR block.
    pub brr_offset: i64,
    /// Key-on delay, the current setup phase.
    pub kon_delay: i64,
    pub env_mode: EnvMode,
    /// Current envelope level.
    pub env: i64,
    /// Used by GAIN mode 7.
    pub hidden_env: i64,
    /// Left and right volume, copied from the voice's registers.
    pub volume: [i64; 2],
    /// -1 when the voice is enabled, 0 when it is muted.
    pub enabled: i64,
}

/// A voice as plain values.
#[verifier::ext_equal]
pub struct VoiceView {
    pub buf: Seq<i64>,
    pub buf_pos: usize,
    pub interp_pos: i64,
    pub brr_addr: i64,
    pub brr_offset: i64,
    pub kon_delay: i64,
    pub env_mode: EnvMode,
    pub env: i64,
    pub hidden_env: i64,
    pub volume: Seq<i64>,
    pub enabled: i64,
}

impl View for Voice {
    type V = VoiceView;

    open spec fn view(&self) -> VoiceView {
        VoiceView {
            buf: self.buf@,
            buf_pos: self.buf_pos,
            interp_pos: self.interp_pos,
            brr_addr: self.brr_addr,
            brr_offset: self.brr_offset,
            kon_delay: self.kon_delay,
            env_mode: self.env_mode,
            env: self.env,
            hidden_env: self.hidden_env,
            volume: self.volume@,
            enabled: self.enabled,
        }
    }
}

/// The voice a new DSP starts with: silent buffers, released envelope,
/// both volumes at 64 and the voice muted.
pub open spec fn initial_voice() -> VoiceView {
    VoiceView {
        buf: Seq::new(VOICE_BUF_SIZE as nat, |i: int| 0i64),
        buf_pos: 0,
        interp_pos: 0,
        brr_addr: 0,
        brr_offset: 0,
        kon_delay: 0,
        env_mode: EnvMode::env_release,
        env: 0,
        hidden_env: 0,
        volume: seq![64i64, 64i64],
        enabled: 0,
    }
}

impl Voice {
    pub fn new() -> (v: Voice)
        ensures
            v@ == initial_voice(),
    {
        let v = Voice {
            buf: [0i64; VOICE_BUF_SIZE],
            buf_pos: 0,
            interp_pos: 0,
            brr_addr: 0,
            brr_offset: 0,
            kon_delay: 0,
            env_mode: EnvMode::env_release,
            env: 0,
            hidden_env: 0,
            volume: [64i64; 2],
            enabled: 0,
        };
        assert(v@.buf =~= initial_voice().buf);
        assert(v@.volume =~= initial_voice().volume);
        v
    }
}

} // verus!
