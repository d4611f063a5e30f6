use vstd::prelude::*;

verus! {

/// Selects the low-pass response.
#[derive(Debug, Default, Clone, Copy)]
pub struct LowPass;

/// Selects the high-pass response.
#[derive(Debug, Default, Clone, Copy)]
pub struct HighPass;

/// Selects the magic-peak response (the peak response minus the input sample).
#[derive(Debug, Default, Clone, Copy)]
pub struct MagicPeak;

/// Selects the band-pass response.
#[derive(Debug, Default, Clone, Copy)]
pub struct BandPass;

/// Selects the notch response.
#[derive(Debug, Default, Clone, Copy)]
pub struct Notch;

/// Selects the peak response.
#[derive(Debug, Default, Clone, Copy)]
pub struct Peak;

/// Selects the all-pass response.
#[derive(Debug, Default, Clone, Copy)]
pub struct AllPass;

} // verus!
