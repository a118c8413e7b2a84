use vstd::prelude::*;

use crate::semitones::Semitones;

verus! {

/// One of the twelve solfege degrees, in semitone order from the tonic:
/// Do, Di, Re, Ri, Mi, Fa, Fi, So, Si, La, Li, Ti.
#[derive(Copy, Clone, Debug, PartialEq, Eq, Structural)]
pub enum Syllable {
    Do,
    Di,
    Re,
    Ri,
    Mi,
    Fa,
    Fi,
    So,
    Si,
    La,
    Li,
    Ti,
}

impl Syllable {
    /// The fixed semitone offset of this degree from the tonic.
    pub open spec fn spec_semitones(self) -> int {
        match self {
            Syllable::Do => 0,
            Syllable::Di => 1,
            Syllable::Re => 2,
            Syllable::Ri => 3,
            Syllable::Mi => 4,
            Syllable::Fa => 5,
            Syllable::Fi => 6,
            Syllable::So => 7,
            Syllable::Si => 8,
            Syllable::La => 9,
            Syllable::Li => 10,
            Syllable::Ti => 11,
        }
    }

    /// The degree a semitone value falls on once normalized into [0, 12).
    pub open spec fn spec_of_semitones(n: int) -> Syllable {
        let m = n % 12;
        if m == 0 {
            Syllable::Do
        } else if m == 1 {
            Syllable::Di
        } else if m == 2 {
            Syllable::Re
        } else if m == 3 {
            Syllable::Ri
        } else if m == 4 {
            Syllable::Mi
        } else if m == 5 {
            Syllable::Fa
        } else if m == 6 {
            Syllable::Fi
        } else if m == 7 {
            Syllable::So
        } else if m == 8 {
            Syllable::Si
        } else if m == 9 {
            Syllable::La
        } else if m == 10 {
            Syllable::Li
        } else {
            Syllable::Ti
        }
    }
}

impl From<Syllable> for Semitones {
    /// Look the degree up in the fixed twelve-entry offset table.
    fn from(v: Syllable) -> (r: Semitones)
        ensures
            r.0 == v.spec_semitones(),
    {
        Semitones(
            match v {
                Syllable::Do => 0,
                Syllable::Di => 1,
                Syllable::Re => 2,
                Syllable::Ri => 3,
                Syllable::Mi => 4,
                Syllable::Fa => 5,
                Syllable::Fi => 6,
                Syllable::So => 7,
                Syllable::Si => 8,
                Syllable::La => 9,
                Syllable::Li => 10,
                Syllable::Ti => 11,
            },
        )
    }
}

impl vstd::std_specs::convert::FromSpecImpl<Syllable> for Semitones {
    open spec fn obeys_from_spec() -> bool {
        true
    }

    open spec fn from_spec(v: Syllable) -> Semitones {
        Semitones(v.spec_semitones() as i32)
    }
}

impl From<Semitones> for Syllable {
    /// Normalize, then look the pitch class up in the fixed twelve-entry
    /// table; a total function with no error case.
    fn from(v: Semitones) -> (r: Syllable)
        ensures
            r == Syllable::spec_of_semitones(v.0 as int),
    {
        let m = v.normalize();
        if m == 0 {
            Syllable::Do
        } else if m == 1 {
            Syllable::Di
        } else if m == 2 {
            Syllable::Re
        } else if m == 3 {
            Syllable::Ri
        } else if m == 4 {
            Syllable::Mi
        } else if m == 5 {
            Syllable::Fa
        } else if m == 6 {
            Syllable::Fi
        } else if m == 7 {
            Syllable::So
        } else if m == 8 {
            Syllable::Si
        } else if m == 9 {
            Syllable::La
        } else if m == 10 {
            Syllable::Li
        } else {
            Syllable::Ti
        }
    }
}

impl vstd::std_specs::convert::FromSpecImpl<Semitones> for Syllable {
    open spec fn obeys_from_spec() -> bool {
        true
    }

    open spec fn from_spec(v: Semitones) -> Syllable {
        Syllable::spec_of_semitones(v.0 as int)
    }
}

/// Every semitone value in [0, 12) maps to exactly one syllable and back:
/// the offset of the degree a value falls on is the value's pitch class.
pub proof fn lemma_semitones_of_syllable_of(n: int)
    ensures
        Syllable::spec_of_semitones(n).spec_semitones() == n % 12,
{
    vstd::arithmetic::div_mod::lemma_mod_bound(n, 12);
}

/// The degree table is a bijection: taking a syllable's offset and looking
/// it back up returns the same syllable.
pub proof fn lemma_syllable_of_semitones_of(s: Syllable)
    ensures
        Syllable::spec_of_semitones(s.spec_semitones()) == s,
{
    vstd::arithmetic::div_mod::lemma_small_mod(s.spec_semitones() as nat, 12);
}

/// Reading a syllable from a semitone value is idempotent: converting the
/// resulting syllable back to semitones and reading again gives the same
/// syllable.
pub proof fn lemma_syllable_roundtrip_idempotent(n: int)
    ensures
        Syllable::spec_of_semitones(Syllable::spec_of_semitones(n).spec_semitones())
            == Syllable::spec_of_semitones(n),
{
    lemma_syllable_of_semitones_of(Syllable::spec_of_semitones(n));
}

} // verus!
