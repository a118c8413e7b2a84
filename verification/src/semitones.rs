use vstd::prelude::*;

verus! {

/// A signed count of semitones: the unit of all pitch-class arithmetic.
#[derive(Copy, Clone, Debug, PartialEq, Eq, Structural)]
pub struct Semitones(pub i32);

/// The remainder operator of the executable language: it truncates toward
/// zero, so a negative operand gives a result in (-d, 0].
pub open spec fn trunc_rem(n: int, d: int) -> int
    recommends
        d > 0,
{
    if n >= 0 {
        n % d
    } else {
        -((-n) % d)
    }
}

impl Semitones {
    /// The pitch class of a semitone value: the mathematical (floor) modulus,
    /// always in [0, 12), with negative values wrapping up rather than
    /// truncating toward zero.
    pub open spec fn spec_normalize(self) -> int {
        self.0 as int % 12
    }

    /// Reduce to the pitch class in [0, 12).
    pub fn normalize(&self) -> (r: i32)
        ensures
            0 <= r < 12,
            r as int == self.spec_normalize(),
    {
        let m = self.0 % 12;
        if m < 0 {
            proof {
                lemma_trunc_rem_vs_mod(self.0 as int);
            }
            m + 12
        } else {
            proof {
                lemma_trunc_rem_vs_mod(self.0 as int);
            }
            m
        }
    }

    /// Add another semitone count.
    pub fn plus(self, other: Semitones) -> (r: Semitones)
        requires
            i32::MIN <= self.0 + other.0 <= i32::MAX,
        ensures
            r.0 == self.0 + other.0,
    {
        Semitones(self.0 + other.0)
    }

    /// Subtract another semitone count.
    pub fn minus(self, other: Semitones) -> (r: Semitones)
        requires
            i32::MIN <= self.0 - other.0 <= i32::MAX,
        ensures
            r.0 == self.0 - other.0,
    {
        Semitones(self.0 - other.0)
    }
}

/// The truncating remainder and the floor modulus agree on non-negative
/// operands and differ by exactly 12 on negative operands not divisible
/// by 12.
proof fn lemma_trunc_rem_vs_mod(n: int)
    ensures
        n >= 0 ==> trunc_rem(n, 12) == n % 12,
        n < 0 && trunc_rem(n, 12) == 0 ==> n % 12 == 0,
        n < 0 && trunc_rem(n, 12) != 0 ==> n % 12 == trunc_rem(n, 12) + 12,
{
    if n < 0 {
        let q = (-n) / 12;
        let r = (-n) % 12;
        vstd::arithmetic::div_mod::lemma_fundamental_div_mod(-n, 12);
        assert(-n == 12 * q + r);
        vstd::arithmetic::div_mod::lemma_mod_bound(-n, 12);
        if r == 0 {
            assert(n == 12 * (-q));
            vstd::arithmetic::div_mod::lemma_mod_multiples_basic(-q, 12);
        } else {
            assert(n == 12 * (-q - 1) + (12 - r));
            vstd::arithmetic::div_mod::lemma_fundamental_div_mod_converse(
                n,
                12,
                -q - 1,
                12 - r,
            );
        }
    }
}

/// For a non-negative value, normalization agrees with the remainder
/// operator: `Semitones(n).normalize() == n % 12`.
pub proof fn lemma_normalize_nonneg(n: Semitones)
    requires
        n.0 >= 0,
    ensures
        n.spec_normalize() == trunc_rem(n.0 as int, 12),
{
    lemma_trunc_rem_vs_mod(n.0 as int);
}

/// For a negative value, normalization wraps the truncating remainder back
/// into [0, 12): `Semitones(n).normalize() == ((n % 12) + 12) % 12`.
pub proof fn lemma_normalize_negative(n: Semitones)
    requires
        n.0 < 0,
    ensures
        n.spec_normalize() == (trunc_rem(n.0 as int, 12) + 12) % 12,
{
    lemma_trunc_rem_vs_mod(n.0 as int);
    let t = trunc_rem(n.0 as int, 12);
    if t == 0 {
        vstd::arithmetic::div_mod::lemma_mod_multiples_basic(1, 12);
    } else {
        vstd::arithmetic::div_mod::lemma_mod_bound(-(n.0 as int), 12);
        vstd::arithmetic::div_mod::lemma_small_mod((t + 12) as nat, 12);
    }
}

} // verus!
