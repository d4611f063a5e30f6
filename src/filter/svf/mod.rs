//! Strategy types of a state-variable filter: which response it outputs and
//! how it samples.
use vstd::prelude::*;

mod output;
pub use self::output::{AllPass, BandPass, HighPass, LowPass, MagicPeak, Notch, Peak};

verus! {

/// Sampling behaviour that runs one state update per stage per input sample.
#[derive(Debug, Default, Clone, Copy)]
pub struct SimpleSampling;

/// Sampling behaviour that subdivides a sample interval into several state
/// updates whenever the prewarped cutoff nears or passes Nyquist.
#[derive(Debug, Default, Clone, Copy)]
pub struct Oversampling;

} // verus!
