//! Utilities for manipulating pitches.
mod octave;
pub use self::octave::{Octave, OctaveSpec};
