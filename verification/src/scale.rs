use vstd::prelude::*;

use crate::pitch::{Key, Pitch};
use crate::semitones::Semitones;
use crate::syllable::Syllable;

verus! {

/// A scale: one of the seven diatonic modes. `Major` is the Ionian mode
/// and `Minor` the Aeolian.
#[derive(Copy, Clone, Debug, PartialEq, Eq, Structural)]
pub enum Scale {
    Major,
    Dorian,
    Phrygian,
    Lydian,
    Mixolydian,
    Minor,
    Locrian,
}

impl Scale {
    /// The seven syllables that are in scale, in degree order starting
    /// from the mode's own first degree.
    pub open spec fn spec_syllables(self) -> Seq<Syllable> {
        match self {
            Scale::Major => seq![
                Syllable::Do,
                Syllable::Re,
                Syllable::Mi,
                Syllable::Fa,
                Syllable::So,
                Syllable::La,
                Syllable::Ti,
            ],
            Scale::Dorian => seq![
                Syllable::Re,
                Syllable::Mi,
                Syllable::Fa,
                Syllable::So,
                Syllable::La,
                Syllable::Ti,
                Syllable::Do,
            ],
            Scale::Phrygian => seq![
                Syllable::Mi,
                Syllable::Fa,
                Syllable::So,
                Syllable::La,
                Syllable::Ti,
                Syllable::Do,
                Syllable::Re,
            ],
            Scale::Lydian => seq![
                Syllable::Fa,
                Syllable::So,
                Syllable::La,
                Syllable::Ti,
                Syllable::Do,
                Syllable::Re,
                Syllable::Mi,
            ],
            Scale::Mixolydian => seq![
                Syllable::So,
                Syllable::La,
                Syllable::Ti,
                Syllable::Do,
                Syllable::Re,
                Syllable::Mi,
                Syllable::Fa,
            ],
            Scale::Minor => seq![
                Syllable::La,
                Syllable::Ti,
                Syllable::Do,
                Syllable::Re,
                Syllable::Mi,
                Syllable::Fa,
                Syllable::So,
            ],
            Scale::Locrian => seq![
                Syllable::Ti,
                Syllable::Do,
                Syllable::Re,
                Syllable::Mi,
                Syllable::Fa,
                Syllable::So,
                Syllable::La,
            ],
        }
    }

    /// True when the syllable is one of the scale's seven degrees.
    pub open spec fn spec_in_scale(self, s: Syllable) -> bool {
        self.spec_syllables().contains(s)
    }

    /// The syllables that are in scale, in degree order.
    pub fn get_syllables(&self) -> (r: Vec<Syllable>)
        ensures
            r@ == self.spec_syllables(),
    {
        let mut v: Vec<Syllable> = Vec::new();
        match self {
            Scale::Major => {
                v.push(Syllable::Do);
                v.push(Syllable::Re);
                v.push(Syllable::Mi);
                v.push(Syllable::Fa);
                v.push(Syllable::So);
                v.push(Syllable::La);
                v.push(Syllable::Ti);
            },
            Scale::Dorian => {
                v.push(Syllable::Re);
                v.push(Syllable::Mi);
                v.push(Syllable::Fa);
                v.push(Syllable::So);
                v.push(Syllable::La);
                v.push(Syllable::Ti);
                v.push(Syllable::Do);
            },
            Scale::Phrygian => {
                v.push(Syllable::Mi);
                v.push(Syllable::Fa);
                v.push(Syllable::So);
                v.push(Syllable::La);
                v.push(Syllable::Ti);
                v.push(Syllable::Do);
                v.push(Syllable::Re);
            },
            Scale::Lydian => {
                v.push(Syllable::Fa);
                v.push(Syllable::So);
                v.push(Syllable::La);
                v.push(Syllable::Ti);
                v.push(Syllable::Do);
                v.push(Syllable::Re);
                v.push(Syllable::Mi);
            },
            Scale::Mixolydian => {
                v.push(Syllable::So);
                v.push(Syllable::La);
                v.push(Syllable::Ti);
                v.push(Syllable::Do);
                v.push(Syllable::Re);
                v.push(Syllable::Mi);
                v.push(Syllable::Fa);
            },
            Scale::Minor => {
                v.push(Syllable::La);
                v.push(Syllable::Ti);
                v.push(Syllable::Do);
                v.push(Syllable::Re);
                v.push(Syllable::Mi);
                v.push(Syllable::Fa);
                v.push(Syllable::So);
            },
            Scale::Locrian => {
                v.push(Syllable::Ti);
                v.push(Syllable::Do);
                v.push(Syllable::Re);
                v.push(Syllable::Mi);
                v.push(Syllable::Fa);
                v.push(Syllable::So);
                v.push(Syllable::La);
            },
        }
        proof {
            assert(v@ =~= self.spec_syllables());
        }
        v
    }

    /// Whether the syllable is in scale, decided by scanning the degree list.
    pub fn is_in_scale(&self, s: Syllable) -> (r: bool)
        ensures
            r == self.spec_in_scale(s),
    {
        let degrees = self.get_syllables();
        let mut i: usize = 0;
        while i < degrees.len()
            invariant
                0 <= i <= degrees@.len(),
                degrees@ == self.spec_syllables(),
                forall|j: int| 0 <= j < i ==> degrees@[j] != s,
            decreases degrees@.len() - i,
        {
            if degrees[i] == s {
                return true;
            }
            i = i + 1;
        }
        false
    }

    /// The pitch a syllable sounds at in the given key: the key's tonic
    /// moved up by the syllable's fixed offset, wrapped into pitch class
    /// plus octave. Pure and total on every well formed key in range.
    pub fn calc_pitch(&self, key: Key, syllable: Syllable) -> (r: Pitch)
        requires
            key.wf(),
            i32::MIN <= key.tonic.octave * 12,
            key.tonic.spec_semitones() + 11 <= i32::MAX,
        ensures
            r.wf(),
            r.spec_semitones() == key.tonic.spec_semitones() + syllable.spec_semitones(),
    {
        let tonic = key.tonic.to_semitones();
        let offset: Semitones = Semitones::from(syllable);
        Pitch::from_semitones(tonic.plus(offset))
    }

    /// The syllable a pitch plays as in the given key: the degree its
    /// distance from the tonic falls on.
    pub fn calc_syllable(&self, key: Key, pitch: Pitch) -> (r: Syllable)
        requires
            key.wf(),
            pitch.wf(),
            i32::MIN <= key.tonic.octave * 12,
            key.tonic.spec_semitones() <= i32::MAX,
            i32::MIN <= pitch.octave * 12,
            pitch.spec_semitones() <= i32::MAX,
            i32::MIN <= pitch.spec_semitones() - key.tonic.spec_semitones() <= i32::MAX,
        ensures
            r == Syllable::spec_of_semitones(
                pitch.spec_semitones() - key.tonic.spec_semitones(),
            ),
    {
        let tonic = key.tonic.to_semitones();
        Syllable::from(pitch.to_semitones().minus(tonic))
    }
}

/// Reading a pitch back in its key returns the syllable it was computed
/// from: `calc_syllable` inverts `calc_pitch`.
pub proof fn lemma_calc_pitch_roundtrip(key: Key, s: Syllable)
    ensures
        Syllable::spec_of_semitones(
            (key.tonic.spec_semitones() + s.spec_semitones()) - key.tonic.spec_semitones(),
        ) == s,
{
    crate::syllable::lemma_syllable_of_semitones_of(s);
}

} // verus!
