use vstd::prelude::*;

use crate::interval::Interval;
use crate::syllable::Syllable;

verus! {

/// A chord: a root syllable, an ordered set of intervals above the root,
/// and an optional bass interval below it. The chord invariant is that the
/// intervals are pairwise distinct by the syllable they resolve to.
#[derive(Debug, PartialEq, Eq)]
pub struct Chord {
    pub root: Syllable,
    pub intervals: Vec<Interval>,
    pub bass: Option<Interval>,
}

/// The mathematical value of a chord: the same fields with the interval
/// list as a sequence.
#[verifier::ext_equal]
pub struct ChordV {
    pub root: Syllable,
    pub intervals: Seq<Interval>,
    pub bass: Option<Interval>,
}

impl View for Chord {
    type V = ChordV;

    open spec fn view(&self) -> ChordV {
        ChordV { root: self.root, intervals: self.intervals@, bass: self.bass }
    }
}

/// The syllable an interval resolves to when taken from the given root.
pub open spec fn spec_syllable_on(root: Syllable, iv: Interval) -> Syllable {
    Syllable::spec_of_semitones(root.spec_semitones() + iv.semitones)
}

impl Clone for Chord {
    /// A chord clones to a chord with the same value.
    fn clone(&self) -> (r: Self)
        ensures
            r@ == self@,
    {
        Chord {
            root: self.root,
            intervals: crate::util::copy_vec(&self.intervals),
            bass: self.bass,
        }
    }
}

impl Chord {
    /// Well formed: every interval is well formed and no two intervals
    /// resolve to the same syllable against the root.
    pub open spec fn wf(self) -> bool {
        &&& forall|i: int|
            0 <= i < self.intervals@.len() ==> (#[trigger] self.intervals@[i]).wf()
        &&& (self.bass matches Some(b) ==> b.wf())
        &&& forall|i: int, j: int|
            0 <= i < j < self.intervals@.len() ==> spec_syllable_on(self.root, self.intervals@[i])
                != spec_syllable_on(self.root, self.intervals@[j])
    }

    /// Build a chord whose intervals are already known to be distinct by
    /// resulting syllable.
    pub fn new(root: Syllable, intervals: Vec<Interval>, bass: Option<Interval>) -> (r: Chord)
        requires
            (Chord { root, intervals, bass }).wf(),
        ensures
            r == (Chord { root, intervals, bass }),
            r.wf(),
    {
        Chord { root, intervals, bass }
    }

    /// Build a chord after checking the invariant: `None` exactly when two
    /// of the given intervals resolve to the same syllable, or an interval
    /// is out of shape.
    pub fn try_new(root: Syllable, intervals: Vec<Interval>, bass: Option<Interval>) -> (r:
        Option<Chord>)
        ensures
            match r {
                Some(c) => c == (Chord { root, intervals, bass }) && c.wf(),
                None => !(Chord { root, intervals, bass }).wf(),
            },
    {
        let mut i: usize = 0;
        while i < intervals.len()
            invariant
                0 <= i <= intervals@.len(),
                forall|k: int| 0 <= k < i ==> (#[trigger] intervals@[k]).wf(),
            decreases intervals@.len() - i,
        {
            let iv = intervals[i];
            if !(0 <= iv.semitones && iv.semitones < 12) {
                return None;
            }
            if iv.quality != Interval::quality_of(iv.semitones) {
                return None;
            }
            i = i + 1;
        }
        match bass {
            Some(b) => {
                if !(0 <= b.semitones && b.semitones < 12) {
                    return None;
                }
                if b.quality != Interval::quality_of(b.semitones) {
                    return None;
                }
            },
            None => {},
        }
        let mut i: usize = 0;
        while i < intervals.len()
            invariant
                0 <= i <= intervals@.len(),
                forall|k: int| 0 <= k < intervals@.len() ==> (#[trigger] intervals@[k]).wf(),
                (bass matches Some(b) ==> b.wf()),
                forall|k: int, l: int|
                    0 <= k < l < intervals@.len() && k < i ==> spec_syllable_on(
                        root,
                        intervals@[k],
                    ) != spec_syllable_on(root, intervals@[l]),
            decreases intervals@.len() - i,
        {
            let si = intervals[i].syllable_on_root(root);
            let mut j: usize = i + 1;
            while j < intervals.len()
                invariant
                    0 <= i < j <= intervals@.len(),
                    forall|k: int| 0 <= k < intervals@.len() ==> (#[trigger] intervals@[k]).wf(),
                    si == spec_syllable_on(root, intervals@[i as int]),
                    forall|l: int|
                        i < l < j ==> spec_syllable_on(root, intervals@[i as int])
                            != spec_syllable_on(root, intervals@[l]),
                decreases intervals@.len() - j,
            {
                let sj = intervals[j].syllable_on_root(root);
                if si == sj {
                    return None;
                }
                j = j + 1;
            }
            i = i + 1;
        }
        Some(Chord { root, intervals, bass })
    }

    /// Resolve each interval against the chord's root, in order: the
    /// syllables the chord is made of, root excluded.
    pub fn intervals_from_root(&self) -> (r: Vec<Syllable>)
        requires
            self.wf(),
        ensures
            r@.len() == self.intervals@.len(),
            forall|i: int|
                0 <= i < r@.len() ==> r@[i] == spec_syllable_on(self.root, self.intervals@[i]),
    {
        let mut r: Vec<Syllable> = Vec::new();
        let mut i: usize = 0;
        while i < self.intervals.len()
            invariant
                0 <= i <= self.intervals@.len(),
                r@.len() == i,
                self.wf(),
                forall|k: int|
                    0 <= k < i ==> r@[k] == spec_syllable_on(self.root, self.intervals@[k]),
            decreases self.intervals@.len() - i,
        {
            let s = self.intervals[i].syllable_on_root(self.root);
            r.push(s);
            i = i + 1;
        }
        r
    }
}

} // verus!
