use vstd::prelude::*;

use crate::Note;

verus! {

/// Notes at or above this value are outside the midi note range.
pub const MIDI_NOTE_CEILING: u8 = 128;

/// Number of semitones in an octave.
pub const SEMIS_PER_OCTAVE: u8 = 12;

/// Represents an octave offset.
#[derive(Debug, Clone, Copy, PartialEq, Eq, Structural)]
pub enum Octave {
    Base,
    Up(u8),
    Down(u8),
}

impl Octave {
    /// The offset in octaves, negative when shifting down.
    pub open spec fn steps(self) -> int {
        match self {
            Octave::Base => 0,
            Octave::Up(x) => x as int,
            Octave::Down(x) => -(x as int),
        }
    }

    /// The offset in semitones.
    pub open spec fn semitones(self) -> int {
        12 * self.steps()
    }

    /// Whether the offset in semitones, taken without its sign, fits in a `u8`.
    pub open spec fn fits_note_shift(self) -> bool {
        -256 < self.semitones() < 256
    }

    /// The octave that an `i8` stands for: its sign gives the direction and
    /// its absolute value the number of octaves.
    pub open spec fn from_i8(val: i8) -> Octave {
        if val == 0 {
            Octave::Base
        } else if val < 0 {
            Octave::Down((-(val as int)) as u8)
        } else {
            Octave::Up(val as u8)
        }
    }

    /// The `i8` that an octave stands for, with the wrapping of an `as` cast
    /// where the count does not fit.
    pub open spec fn to_i8(self) -> i8 {
        match self {
            Octave::Base => 0,
            Octave::Up(x) => x as i8,
            Octave::Down(x) => (-(x as int)) as i8,
        }
    }
}

impl Default for Octave {
    fn default() -> (r: Octave)
        ensures
            r == Octave::Base,
    {
        Octave::Base
    }
}

impl From<i8> for Octave {
    fn from(val: i8) -> (r: Octave) {
        if val == 0 {
            Octave::Base
        } else if val < 0 {
            Octave::Down((-(val as i16)) as u8)
        } else {
            Octave::Up(val as u8)
        }
    }
}

impl vstd::std_specs::convert::FromSpecImpl<i8> for Octave {
    open spec fn obeys_from_spec() -> bool {
        true
    }

    open spec fn from_spec(v: i8) -> Octave {
        Octave::from_i8(v)
    }
}

impl From<Octave> for i8 {
    fn from(val: Octave) -> (r: i8) {
        match val {
            Octave::Base => 0,
            Octave::Up(x) => x as i8,
            Octave::Down(x) => (-(x as i16)) as i8,
        }
    }
}

impl vstd::std_specs::convert::FromSpecImpl<Octave> for i8 {
    open spec fn obeys_from_spec() -> bool {
        true
    }

    open spec fn from_spec(v: Octave) -> i8 {
        v.to_i8()
    }
}

/// The note `note` moved by the octave offset `o`, or `None` where the result
/// would be negative, or, when not shifting down, at or above the midi
/// ceiling.
pub open spec fn shifted_note(o: Octave, note: int) -> Option<u8> {
    let n = note + o.semitones();
    match o {
        Octave::Down(_) => if n >= 0 {
            Some(n as u8)
        } else {
            None
        },
        _ => if 0 <= n < MIDI_NOTE_CEILING {
            Some(n as u8)
        } else {
            None
        },
    }
}

/// Useful methods built on top of [Octave].
#[derive(Debug)]
pub struct OctaveSpec {
    status: Octave,
}

impl OctaveSpec {
    /// The octave offset held.
    pub closed spec fn status(&self) -> Octave {
        self.status
    }

    pub fn matches(&self, status: Octave) -> (r: bool)
        ensures
            r == (self.status() == status),
    {
        self.status == status
    }

    pub fn set(&mut self, status: Octave)
        ensures
            final(self).status() == status,
    {
        self.status = status;
    }

    pub fn get(&self) -> (r: Octave)
        ensures
            r == self.status(),
    {
        self.status
    }

    /// Move `note` by the octave offset held.
    pub fn apply_note(&self, note: Note) -> (r: Option<Note>)
        requires
            self.status().fits_note_shift(),
        ensures
            r == shifted_note(self.status(), note as int),
    {
        match self.status {
            Octave::Base => if note < MIDI_NOTE_CEILING {
                Some(note)
            } else {
                None
            },
            Octave::Up(x) => {
                let shift: u8 = SEMIS_PER_OCTAVE * x;
                if (note as u16) + (shift as u16) < MIDI_NOTE_CEILING as u16 {
                    Some(note + shift)
                } else {
                    None
                }
            },
            Octave::Down(x) => {
                let shift: u8 = SEMIS_PER_OCTAVE * x;
                if note >= shift {
                    Some(note - shift)
                } else {
                    None
                }
            },
        }
    }
}

impl Default for OctaveSpec {
    fn default() -> (r: OctaveSpec)
        ensures
            r.status() == Octave::Base,
    {
        OctaveSpec { status: Octave::Base }
    }
}

} // verus!
