//! Sizes of the DSP's register file, voice set and buffers.
use vstd::prelude::*;

verus! {

/// Number of DSP registers.
pub const REGISTER_COUNT: usize = 128;

/// Number of voices.
pub const VOICE_COUNT: usize = 8;

/// Number of samples in the built-in output buffer.
pub const EXTRA_SIZE: usize = 16;

/// Number of samples decoded from one BRR block.
pub const BRR_BUF_SIZE: usize = 12;

/// Length of a voice's decode buffer: twice a block, to simplify wrap handling.
pub const VOICE_BUF_SIZE: usize = BRR_BUF_SIZE * 2;

/// Number of bytes of RAM shared between the DSP and the SMP.
pub const RAM_SIZE: usize = 0xFFFF;

/// Number of clock counters.
pub const COUNTER_COUNT: usize = 4;

/// Number of counter rates.
pub const RATE_COUNT: usize = 32;

} // verus!
