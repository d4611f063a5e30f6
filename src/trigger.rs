//! Midi note trigger.
use vstd::prelude::*;

use crate::{Note, Vel};

verus! {

/// Midi note trigger: stores a note number and velocity.
#[derive(Debug, Default, Clone, Copy)]
pub struct NoteOn {
    pub note: Note,
    pub vel: Vel,
}

} // verus!
