//! Waveform shapes and sets of shapes.
use vstd::prelude::*;

mod wave_shape;
pub use self::wave_shape::WaveShape;

mod wave_set;
pub use self::wave_set::WaveSet;

verus! {

/// Index of the triangle shape.
pub const TRI: u8 = 0;
/// Index of the pulse shape.
pub const PULSE: u8 = 1;
/// Index of the sawtooth shape.
pub const SAW: u8 = 2;
/// Index of the sine shape.
pub const SINE: u8 = 3;

} // verus!
