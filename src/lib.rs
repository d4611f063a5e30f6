//! Building blocks for audio plugins: bitmasks, waveform selection, octave
//! shifting, envelope-follower hold logic, and the strategy types that select a
//! state-variable filter's response and sampling behaviour.
use vstd::prelude::*;

pub mod env;
pub mod filter;
pub mod follow;
pub mod modulate;
pub mod osc;
pub mod pitch;
pub mod trigger;
pub mod util;
pub mod wave;

verus! {

/// A midi note; 0..128.
pub type Note = u8;

/// Midi velocity; 0..128.
pub type Vel = u8;

/// A processor that generates a value, with no input.
///
/// Its user-modifiable parameters are passed in as `Spec`; to take a value as
/// input, use [Proc] instead.
pub trait Gen<O> {
    /// Type that holds this component's user-modifiable parameters.
    type Spec;

    fn gen(&mut self, spec: &Self::Spec) -> O;
}

/// A processor that transforms a value.
///
/// Its user-modifiable parameters are passed in as `Spec`; if it has no
/// meaningful input value, use [Gen] instead.
pub trait Proc<I, O> {
    /// Type that holds this component's user-modifiable parameters.
    type Spec;

    fn proc(&mut self, spec: &Self::Spec, input: I) -> O;
}

} // verus!
