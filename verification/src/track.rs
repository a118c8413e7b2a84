use vstd::prelude::*;

use crate::entry::{ModelEntry, ModelEntryV, ProtoEntry, ProtoEntryV};
use crate::slice::{SliceBegin, SliceBeginV, SliceEnd, SliceEndV};

verus! {

/// What a track plays.
#[derive(Copy, Clone, Debug, PartialEq, Eq, Structural)]
pub enum TrackKind {
    Unsupported,
    Meta,
    Chord,
    Lyrics,
    Vocal,
    Guitar,
    Synth,
    Piano,
    Drums,
    Bass,
}

/// The values of a sequence of resolved entries.
pub open spec fn entry_views(s: Seq<ModelEntry>) -> Seq<ModelEntryV> {
    s.map_values(|e: ModelEntry| e@)
}

/// True when the entry at position `i` is a mark named `name`.
pub open spec fn is_mark_at(entries: Seq<ModelEntryV>, i: int, name: Seq<char>) -> bool {
    entries[i].value matches ProtoEntryV::Mark(m) && m == name
}

/// The position of the first mark named `name` at or after `begin`:
/// a forward-only scan that never wraps around.
pub open spec fn first_mark_from(entries: Seq<ModelEntryV>, begin: int, name: Seq<char>) -> Option<
    int,
>
    recommends
        0 <= begin,
    decreases entries.len() - begin,
{
    if begin >= entries.len() {
        None
    } else if is_mark_at(entries, begin, name) {
        Some(begin)
    } else {
        first_mark_from(entries, begin + 1, name)
    }
}

/// What the forward scan returns: the first matching position at or after
/// `begin`, with nothing matching before it, or nothing at all.
pub proof fn lemma_first_mark_from(entries: Seq<ModelEntryV>, begin: int, name: Seq<char>)
    requires
        0 <= begin,
    ensures
        match first_mark_from(entries, begin, name) {
            Some(i) => begin <= i < entries.len() && is_mark_at(entries, i, name) && forall|j: int|
                begin <= j < i ==> !is_mark_at(entries, j, name),
            None => forall|j: int| begin <= j < entries.len() ==> !is_mark_at(entries, j, name),
        },
    decreases entries.len() - begin,
{
    if begin < entries.len() && !is_mark_at(entries, begin, name) {
        lemma_first_mark_from(entries, begin + 1, name);
    }
}

/// The `(start, count)` a slice address pair resolves to, following the
/// four-way table: a begin mark is excluded from the slice, an end mark is
/// excluded too, an absent mark yields an empty range rather than an error.
pub open spec fn slice_range(
    entries: Seq<ModelEntryV>,
    begin: SliceBeginV,
    end: SliceEndV,
) -> (int, int) {
    match (begin, end) {
        (SliceBeginV::Mark(x), SliceEndV::Mark(y)) => match first_mark_from(entries, 0, x) {
            Some(i) => {
                let s = i + 1;
                match first_mark_from(entries, s, y) {
                    Some(e) => (s, e - s),
                    None => (s, 0),
                }
            },
            None => (0, 0),
        },
        (SliceBeginV::Mark(x), SliceEndV::Count(n)) => match first_mark_from(entries, 0, x) {
            Some(i) => (i + 1, n as int),
            None => (0, 0),
        },
        (SliceBeginV::Index(x), SliceEndV::Mark(y)) => match first_mark_from(
            entries,
            x as int,
            y,
        ) {
            Some(e) => (x as int, if e > x as int {
                e - 1 - x as int
            } else {
                0
            }),
            None => (x as int, 0),
        },
        (SliceBeginV::Index(x), SliceEndV::Count(n)) => (x as int, n as int),
    }
}

/// The entries of the range `[start, start + count)`, clipped to the
/// list's bounds: positions past the end silently yield no entries.
pub open spec fn clip_range(entries: Seq<ModelEntryV>, start: int, count: int) -> Seq<
    ModelEntryV,
> {
    if start < 0 || start > entries.len() || count <= 0 {
        Seq::empty()
    } else if start + count <= entries.len() {
        entries.subrange(start, start + count)
    } else {
        entries.subrange(start, entries.len() as int)
    }
}

/// The entries a slice address pair selects from an entry list.
pub open spec fn slice_entries(
    entries: Seq<ModelEntryV>,
    begin: SliceBeginV,
    end: SliceEndV,
) -> Seq<ModelEntryV> {
    let (start, count) = slice_range(entries, begin, end);
    clip_range(entries, start, count)
}

/// A track: an id, a kind, and the immutable, shared list of resolved
/// entries it plays. Created once from declarative input and never
/// mutated afterwards.
#[derive(Debug, PartialEq, Eq)]
pub struct Track {
    pub id: String,
    pub kind: TrackKind,
    pub entries: Vec<ModelEntry>,
}

/// The mathematical value of a track.
#[verifier::ext_equal]
pub struct TrackV {
    pub id: Seq<char>,
    pub kind: TrackKind,
    pub entries: Seq<ModelEntryV>,
}

impl View for Track {
    type V = TrackV;

    open spec fn view(&self) -> TrackV {
        TrackV { id: self.id@, kind: self.kind, entries: entry_views(self.entries@) }
    }
}

impl Track {
    /// Well formed: every entry carries its own position as its index.
    pub open spec fn wf(self) -> bool {
        forall|i: int| 0 <= i < self@.entries.len() ==> (#[trigger] self@.entries[i]).index == i
    }

    pub fn new(id: String, kind: TrackKind, entries: Vec<ModelEntry>) -> (r: Track)
        ensures
            r == (Track { id, kind, entries }),
    {
        Track { id, kind, entries }
    }

    /// Build a track from raw input: wrap each raw entry with its index.
    pub fn from_raw(id: String, kind: TrackKind, entries: Vec<ProtoEntry>) -> (r: Track)
        ensures
            r@.id == id@,
            r@.kind == kind,
            r@.entries.len() == entries@.len(),
            forall|i: int| 0 <= i < entries@.len() ==> (#[trigger] r@.entries[i]).value
                == entries@[i]@,
            r.wf(),
    {
        let wrapped = ModelEntry::new_entries(entries);
        let r = Track { id, kind, entries: wrapped };
        proof {
            assert(forall|i: int|
                0 <= i < r@.entries.len() ==> #[trigger] r@.entries[i] == r.entries@[i]@);
        }
        r
    }

    /// Scan forward from `begin` for the first entry that is a mark with
    /// the given name; `None` when the scan reaches the end of the list.
    /// The scan never wraps around.
    pub fn index_of_mark(&self, begin: usize, mark: &String) -> (r: Option<usize>)
        ensures
            match r {
                Some(i) => first_mark_from(self@.entries, begin as int, mark@) == Some(i as int),
                None => first_mark_from(self@.entries, begin as int, mark@) is None,
            },
    {
        let mut i: usize = begin;
        while i < self.entries.len()
            invariant
                begin <= i,
                first_mark_from(self@.entries, begin as int, mark@) == first_mark_from(
                    self@.entries,
                    i as int,
                    mark@,
                ),
                self@.entries.len() == self.entries@.len(),
            decreases self.entries@.len() - i,
        {
            if self.entries[i].value.is_mark_string(mark) {
                return Some(i);
            }
            i = i + 1;
        }
        None
    }

    /// Resolve a slice address pair to its `(start, count)` range,
    /// following the four-way table exactly.
    pub fn resolve_slice(&self, begin: &SliceBegin, end: &SliceEnd) -> (r: (usize, usize))
        ensures
            r.0 as int == slice_range(self@.entries, begin@, end@).0,
            r.1 as int == slice_range(self@.entries, begin@, end@).1,
    {
        match (begin, end) {
            (SliceBegin::Mark(x), SliceEnd::Mark(y)) => match self.index_of_mark(0, x) {
                Some(i) => {
                    let _track_len: usize = self.entries.len();
                    proof {
                        assert(self@.entries.len() == self.entries@.len());
                        lemma_first_mark_from(self@.entries, 0, x@);
                        assert(i < _track_len);
                    }
                    let s: usize = i + 1;
                    match self.index_of_mark(s, y) {
                        Some(e) => {
                            proof {
                                lemma_first_mark_from(self@.entries, s as int, y@);
                            }
                            (s, e - s)
                        },
                        None => (s, 0),
                    }
                },
                None => (0, 0),
            },
            (SliceBegin::Mark(x), SliceEnd::Count(n)) => match self.index_of_mark(0, x) {
                Some(i) => {
                    let _track_len: usize = self.entries.len();
                    proof {
                        assert(self@.entries.len() == self.entries@.len());
                        lemma_first_mark_from(self@.entries, 0, x@);
                        assert(i < _track_len);
                    }
                    (i + 1, *n)
                },
                None => (0, 0),
            },
            (SliceBegin::Index(x), SliceEnd::Mark(y)) => match self.index_of_mark(*x, y) {
                Some(e) => {
                    proof {
                        lemma_first_mark_from(self@.entries, *x as int, y@);
                    }
                    if e > *x {
                        (*x, e - 1 - *x)
                    } else {
                        (*x, 0)
                    }
                },
                None => (*x, 0),
            },
            (SliceBegin::Index(x), SliceEnd::Count(n)) => (*x, *n),
        }
    }

    /// The entries a slice address pair selects: the resolved range, read
    /// out of the list and clipped to its bounds.
    pub fn get_entries(&self, begin: &SliceBegin, end: &SliceEnd) -> (r: Vec<ModelEntry>)
        ensures
            entry_views(r@) == slice_entries(self@.entries, begin@, end@),
    {
        let (start, count) = self.resolve_slice(begin, end);
        let mut r: Vec<ModelEntry> = Vec::new();
        let mut i: usize = start;
        let mut k: usize = 0;
        while k < count && i < self.entries.len()
            invariant
                i == start + k,
                0 <= k <= count,
                start <= i,
                self@.entries.len() == self.entries@.len(),
                k <= self@.entries.len(),
                entry_views(r@) == clip_range(self@.entries, start as int, k as int),
                k < count ==> entry_views(r@).len() == k,
            decreases count - k,
        {
            r.push(self.entries[i].clone());
            proof {
                assert(entry_views(r@) =~= clip_range(self@.entries, start as int, k + 1));
            }
            i = i + 1;
            k = k + 1;
        }
        proof {
            if k < count {
                assert(i >= self.entries@.len());
                assert(entry_views(r@) =~= clip_range(
                    self@.entries,
                    start as int,
                    count as int,
                ));
            }
            assert(entry_views(r@) =~= slice_entries(self@.entries, begin@, end@));
        }
        r
    }
}

} // verus!
