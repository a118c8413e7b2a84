use vstd::prelude::*;

use crate::semitones::Semitones;
use crate::syllable::Syllable;

verus! {

/// The quality of an interval.
#[derive(Copy, Clone, Debug, PartialEq, Eq, Structural)]
pub enum IntervalQuality {
    Perfect,
    Major,
    Minor,
    Augmented,
    Diminished,
    Tritone,
}

/// The fixed span-to-quality table: one entry per pitch-class span.
/// 0 is the perfect unison, 5 the perfect fourth, 7 the perfect fifth,
/// 6 the tritone; 1, 3, 8 and 10 are minor, 2, 4, 9 and 11 major.
pub open spec fn spec_quality_of(span: int) -> IntervalQuality {
    let m = span % 12;
    if m == 0 || m == 5 || m == 7 {
        IntervalQuality::Perfect
    } else if m == 6 {
        IntervalQuality::Tritone
    } else if m == 1 || m == 3 || m == 8 || m == 10 {
        IntervalQuality::Minor
    } else {
        IntervalQuality::Major
    }
}

/// An interval: a quality plus its span in semitones, kept in [0, 12).
#[derive(Copy, Clone, Debug, PartialEq, Eq, Structural)]
pub struct Interval {
    pub quality: IntervalQuality,
    pub semitones: i32,
}

impl Interval {
    /// An interval is well formed when its span is a pitch-class span and
    /// its quality is the table entry for that span.
    pub open spec fn wf(self) -> bool {
        0 <= self.semitones < 12 && self.quality == spec_quality_of(self.semitones as int)
    }

    /// The interval with the given pitch-class span.
    pub open spec fn spec_of_span(span: int) -> Interval {
        Interval { quality: spec_quality_of(span), semitones: (span % 12) as i32 }
    }

    /// Look the quality of a span up in the fixed twelve-entry table.
    pub fn quality_of(span: i32) -> (r: IntervalQuality)
        requires
            0 <= span < 12,
        ensures
            r == spec_quality_of(span as int),
    {
        proof {
            vstd::arithmetic::div_mod::lemma_small_mod(span as nat, 12);
        }
        if span == 0 || span == 5 || span == 7 {
            IntervalQuality::Perfect
        } else if span == 6 {
            IntervalQuality::Tritone
        } else if span == 1 || span == 3 || span == 8 || span == 10 {
            IntervalQuality::Minor
        } else {
            IntervalQuality::Major
        }
    }

    /// The interval from a root syllable up to a target syllable: the span
    /// is the normalized semitone difference, the quality comes from the
    /// span table. Total, with no error case.
    pub fn of(root: Syllable, target: Syllable) -> (r: Interval)
        ensures
            r.wf(),
            r.semitones as int == (target.spec_semitones() - root.spec_semitones()) % 12,
            r == Interval::spec_of_span(target.spec_semitones() - root.spec_semitones()),
    {
        let rs: Semitones = Semitones::from(root);
        let ts: Semitones = Semitones::from(target);
        let span = ts.minus(rs).normalize();
        proof {
            vstd::arithmetic::div_mod::lemma_mod_twice(
                target.spec_semitones() - root.spec_semitones(),
                12,
            );
        }
        Interval { quality: Interval::quality_of(span), semitones: span }
    }

    /// The syllable this interval lands on when taken from the given root.
    pub fn syllable_on_root(&self, root: Syllable) -> (r: Syllable)
        requires
            self.wf(),
        ensures
            r == Syllable::spec_of_semitones(root.spec_semitones() + self.semitones),
    {
        let rs: Semitones = Semitones::from(root);
        Syllable::from(rs.plus(Semitones(self.semitones)))
    }
}

} // verus!
