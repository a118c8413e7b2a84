use vstd::prelude::*;

use crate::semitones::Semitones;

verus! {

/// A pitch: a pitch class in [0, 12) plus an octave number. Convertible
/// to and from an absolute semitone count (12 semitones per octave).
#[derive(Copy, Clone, Debug, PartialEq, Eq, Structural)]
pub struct Pitch {
    pub class: i32,
    pub octave: i32,
}

impl Pitch {
    /// A pitch is well formed when its class is a pitch class.
    pub open spec fn wf(self) -> bool {
        0 <= self.class < 12
    }

    /// The absolute semitone count a pitch stands for.
    pub open spec fn spec_semitones(self) -> int {
        self.octave * 12 + self.class
    }

    pub fn new(class: i32, octave: i32) -> (r: Pitch)
        requires
            0 <= class < 12,
        ensures
            r == (Pitch { class, octave }),
            r.wf(),
    {
        Pitch { class, octave }
    }

    /// Convert to an absolute semitone count.
    pub fn to_semitones(&self) -> (r: Semitones)
        requires
            self.wf(),
            i32::MIN <= self.octave * 12,
            self.spec_semitones() <= i32::MAX,
        ensures
            r.0 == self.spec_semitones(),
    {
        Semitones(self.octave * 12 + self.class)
    }

    /// Recover the unique pitch (class in [0, 12), octave) whose absolute
    /// semitone count is the given value: the octave-wrapping conversion.
    pub fn from_semitones(s: Semitones) -> (r: Pitch)
        ensures
            r.wf(),
            r.spec_semitones() == s.0 as int,
            r.class == s.0 as int % 12,
    {
        let class = s.normalize();
        let q = s.0 / 12;
        let octave = if s.0 % 12 < 0 {
            q - 1
        } else {
            q
        };
        proof {
            lemma_div_vs_floor(s.0 as int);
        }
        Pitch { class, octave }
    }
}

/// Relates the truncating division and remainder of the executable language
/// to the floor-based decomposition `n == octave * 12 + class` used by
/// `Pitch::from_semitones`.
proof fn lemma_div_vs_floor(n: int)
    requires
        i32::MIN <= n <= i32::MAX,
    ensures
        trunc_div_rem_ok(n),
{
    let q = if n >= 0 {
        n / 12
    } else {
        -((-n) / 12)
    };
    let r = if n >= 0 {
        n % 12
    } else {
        -((-n) % 12)
    };
    if n >= 0 {
        vstd::arithmetic::div_mod::lemma_fundamental_div_mod(n, 12);
        vstd::arithmetic::div_mod::lemma_mod_bound(n, 12);
    } else {
        vstd::arithmetic::div_mod::lemma_fundamental_div_mod(-n, 12);
        vstd::arithmetic::div_mod::lemma_mod_bound(-n, 12);
        assert(n == 12 * q + r);
        if r == 0 {
            vstd::arithmetic::div_mod::lemma_mod_multiples_basic(q, 12);
            vstd::arithmetic::div_mod::lemma_fundamental_div_mod_converse(n, 12, q, 0);
        } else {
            vstd::arithmetic::div_mod::lemma_fundamental_div_mod_converse(
                n,
                12,
                q - 1,
                r + 12,
            );
        }
    }
}

/// The decomposition computed from truncating division matches the floor
/// modulus: with `q = n / 12` and `r = n % 12` as the executable operators
/// give them, the pair (`q` adjusted down when `r` is negative, `n % 12`
/// as floor modulus) rebuilds `n`.
spec fn trunc_div_rem_ok(n: int) -> bool {
    let q = if n >= 0 {
        n / 12
    } else {
        -((-n) / 12)
    };
    let r = if n >= 0 {
        n % 12
    } else {
        -((-n) % 12)
    };
    let octave = if r < 0 {
        q - 1
    } else {
        q
    };
    octave * 12 + (n % 12) == n
}

/// A key: the tonic pitch everything else is measured from.
#[derive(Copy, Clone, Debug, PartialEq, Eq, Structural)]
pub struct Key {
    pub tonic: Pitch,
}

impl Key {
    pub open spec fn wf(self) -> bool {
        self.tonic.wf()
    }

    pub fn new(tonic: Pitch) -> (r: Key)
        ensures
            r == (Key { tonic }),
    {
        Key { tonic }
    }
}

} // verus!
