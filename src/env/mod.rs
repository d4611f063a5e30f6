//! Envelope generator stages and messages.
use vstd::prelude::*;

verus! {

/// Trait for envelope generators to receive state-change messages.
pub trait HoldRelease {
    fn hold(&mut self);

    fn release(&mut self);

    fn sustain(&mut self);
}

/// Marker for which stage of an ADSR envelope we're in.
#[derive(Debug, Clone, Copy, PartialEq, Eq, Structural)]
pub enum AdsrStage {
    A,
    D,
    S,
    R,
}

impl Default for AdsrStage {
    fn default() -> (r: AdsrStage)
        ensures
            r == AdsrStage::A,
    {
        AdsrStage::A
    }
}

} // verus!
