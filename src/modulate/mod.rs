//! Utilities for modulating parameters.
use vstd::prelude::*;

verus! {

/// Trait for specs whose parameters can be modulated: `modulated` produces an
/// owned value that the caller may change according to modulator outputs.
pub trait Modulated {
    /// Type produced by [Modulated::modulated] (can be `Self`).
    type Child;

    /// Create a new spec whose parameters can be modulated.
    fn modulated(&self) -> Self::Child;
}

/// Accumulates modulator values by multiplication, starting from one.
#[derive(Debug, Default, Clone, Copy)]
pub struct EnvAccumulator;

/// Accumulates modulator values by addition, starting from zero.
#[derive(Debug, Default, Clone, Copy)]
pub struct LfoAccumulator;

} // verus!
