//! A model of the S-DSP, the sound chip of the SNES audio unit: its register
//! file, its eight voices, the shared 64K RAM and the clock-phase bookkeeping
//! of the emulator core.
#![allow(non_snake_case)]
#![allow(non_camel_case_types)]

use vstd::prelude::*;

pub mod sizes;
pub mod registers;
pub mod voice;
pub mod state;
pub mod SPC_DSP;
pub mod laws;

verus! {

/// One output sample of the DSP.
pub type sample_t = i16;

} // verus!
