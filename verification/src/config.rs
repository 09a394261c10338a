use vstd::prelude::*;

verus! {

/// (CGB only) whether display colours are corrected to look more like the
/// hardware's.
pub const WITH_COLOUR_CORRECTION: bool = true;

pub const SAMPLING_RATE_HZ: u32 = 48000;

pub const AUDIO_SAMPLES: usize = 2048;

} // verus!
