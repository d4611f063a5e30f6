use vstd::prelude::*;

use super::{PULSE, SAW, SINE, TRI};

verus! {

/// Enum for basic waveform types.
#[derive(Debug, Clone, Copy, PartialEq, Eq, Structural)]
pub enum WaveShape {
    Tri,
    Pulse,
    Saw,
    Sine,
}

impl WaveShape {
    /// Index of this shape: its position among triangle, pulse, saw and sine.
    pub open spec fn index(self) -> nat {
        match self {
            WaveShape::Tri => 0,
            WaveShape::Pulse => 1,
            WaveShape::Saw => 2,
            WaveShape::Sine => 3,
        }
    }

    /// The shape with index `i`; `i` must be below 4.
    pub open spec fn of_index(i: nat) -> WaveShape {
        if i == 0 {
            WaveShape::Tri
        } else if i == 1 {
            WaveShape::Pulse
        } else if i == 2 {
            WaveShape::Saw
        } else {
            WaveShape::Sine
        }
    }

    pub fn into_u8(self) -> (r: u8)
        ensures
            r as nat == self.index(),
    {
        match self {
            WaveShape::Tri => TRI,
            WaveShape::Pulse => PULSE,
            WaveShape::Saw => SAW,
            WaveShape::Sine => SINE,
        }
    }

    pub fn into_usize(self) -> (r: usize)
        ensures
            r as nat == self.index(),
    {
        self.into_u8() as usize
    }

    /// The shape whose index is `idx`.
    pub fn from_u8(idx: u8) -> (r: WaveShape)
        requires
            idx < 4,
        ensures
            r == WaveShape::of_index(idx as nat),
            r.index() == idx as nat,
    {
        match idx {
            TRI => WaveShape::Tri,
            PULSE => WaveShape::Pulse,
            SAW => WaveShape::Saw,
            _ => WaveShape::Sine,
        }
    }
}

impl Default for WaveShape {
    fn default() -> (r: WaveShape)
        ensures
            r == WaveShape::Tri,
    {
        WaveShape::Tri
    }
}

} // verus!
