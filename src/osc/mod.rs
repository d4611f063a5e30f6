//! Oscillator types.
use vstd::prelude::*;

use std::marker::PhantomData;

verus! {

/// Base type of oscillators, generic over a [crate::wave::WaveShape] or a
/// [crate::wave::WaveSet]; it holds no state of its own.
#[derive(Debug, Default)]
pub struct OscCore<W> {
    _phantom: PhantomData<W>,
}

} // verus!
