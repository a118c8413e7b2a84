use vstd::prelude::*;

use crate::pitch::Pitch;
use crate::syllable::Syllable;

verus! {

/// A note: a pitch, and optionally the syllable it plays as. When the
/// syllable is present it is authoritative for the note's function in the
/// key; the pitch is authoritative for its sound.
#[derive(Copy, Clone, Debug, PartialEq, Eq, Structural)]
pub struct Note {
    pub pitch: Pitch,
    pub syllable: Option<Syllable>,
}

impl Note {
    pub open spec fn wf(self) -> bool {
        self.pitch.wf()
    }

    pub fn new(pitch: Pitch, syllable: Option<Syllable>) -> (r: Note)
        ensures
            r == (Note { pitch, syllable }),
    {
        Note { pitch, syllable }
    }
}

} // verus!
