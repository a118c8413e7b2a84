use vstd::prelude::*;

verus! {

/// A plain note length, as a fraction of a whole note.
#[derive(Copy, Clone, Debug, PartialEq, Eq, Structural)]
pub enum Unit {
    Whole,
    Half,
    Quarter,
    Eighth,
    Sixteenth,
    ThirtySecondth,
}

/// A duration: zero, a plain unit, or a dotted, triplet or dotted-triplet
/// variant of one.
#[derive(Copy, Clone, Debug, PartialEq, Eq, Structural)]
pub enum Duration {
    Zero,
    Simple(Unit),
    Dotted(Unit),
    Triplet(Unit),
    DottedTriplet(Unit),
}

/// Ticks of one plain unit, at 192 to the whole note: the coarsest grid on
/// which every dotted, triplet and dotted-triplet length is still whole.
pub open spec fn spec_unit_ticks(u: Unit) -> int {
    match u {
        Unit::Whole => 192,
        Unit::Half => 96,
        Unit::Quarter => 48,
        Unit::Eighth => 24,
        Unit::Sixteenth => 12,
        Unit::ThirtySecondth => 6,
    }
}

impl Duration {
    /// The duration's exact length on the 192-ticks-per-whole grid: a
    /// dotted length is one and a half units, a triplet two thirds, a
    /// dotted triplet four thirds.
    pub open spec fn spec_ticks(self) -> int {
        match self {
            Duration::Zero => 0,
            Duration::Simple(u) => spec_unit_ticks(u),
            Duration::Dotted(u) => spec_unit_ticks(u) + spec_unit_ticks(u) / 2,
            Duration::Triplet(u) => 2 * (spec_unit_ticks(u) / 3),
            Duration::DottedTriplet(u) => 4 * (spec_unit_ticks(u) / 3),
        }
    }

    /// Ticks of one plain unit, at 192 to the whole note.
    pub fn unit_ticks(u: Unit) -> (r: u32)
        ensures
            r as int == spec_unit_ticks(u),
    {
        match u {
            Unit::Whole => 192,
            Unit::Half => 96,
            Unit::Quarter => 48,
            Unit::Eighth => 24,
            Unit::Sixteenth => 12,
            Unit::ThirtySecondth => 6,
        }
    }

    /// The duration's exact length in ticks, 192 to the whole note.
    pub fn ticks(&self) -> (r: u32)
        ensures
            r as int == self.spec_ticks(),
    {
        match self {
            Duration::Zero => 0,
            Duration::Simple(u) => Duration::unit_ticks(*u),
            Duration::Dotted(u) => {
                let t = Duration::unit_ticks(*u);
                t + t / 2
            },
            Duration::Triplet(u) => {
                let t = Duration::unit_ticks(*u);
                2 * (t / 3)
            },
            Duration::DottedTriplet(u) => {
                let t = Duration::unit_ticks(*u);
                4 * (t / 3)
            },
        }
    }

    /// True for the zero duration.
    pub fn is_zero(&self) -> (r: bool)
        ensures
            r == (*self == Duration::Zero),
    {
        match self {
            Duration::Zero => true,
            _ => false,
        }
    }
}

} // verus!
