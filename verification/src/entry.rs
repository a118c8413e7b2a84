use vstd::prelude::*;

use crate::chord::Chord;
use crate::duration::Duration;
use crate::meta::MetaEntry;
use crate::note::Note;
use crate::util::copy_vec;

verus! {

/// One entry of a track: a musical event (a tone, a chord, a plucked
/// pick, a fretted shape, a lyric word, a rest, a tie), a zero-length
/// named mark, a context mutation, or an extra key-value annotation.
#[derive(Debug, PartialEq, Eq)]
pub enum ProtoEntry {
    /// A zero-length named position, addressable by slices.
    Mark(String),
    /// A context mutation: duration, key, scale, signature or tempo
    /// override.
    Meta(MetaEntry),
    /// Ties the previous event to the next one.
    Tie,
    /// Silence for the given duration.
    Rest(Duration),
    /// One or more notes sounding together for the given duration.
    Tone(Vec<Note>, Duration),
    /// A chord played for the given duration.
    Chord(Chord, Duration),
    /// A lyric word sung for the given duration.
    Word(String, Duration),
    /// Strings plucked, by string number, for the given duration.
    Pick(Vec<u8>, Duration),
    /// A fretted shape: one optional fret per string, `None` for a muted
    /// string.
    Shape(Vec<Option<u8>>, Duration),
    /// An opaque key-value annotation.
    Extra(String, String),
}

/// The mathematical value of an entry: the same shape with strings and
/// vectors as sequences.
#[verifier::ext_equal]
pub enum ProtoEntryV {
    Mark(Seq<char>),
    Meta(MetaEntry),
    Tie,
    Rest(Duration),
    Tone(Seq<Note>, Duration),
    Chord(crate::chord::ChordV, Duration),
    Word(Seq<char>, Duration),
    Pick(Seq<u8>, Duration),
    Shape(Seq<Option<u8>>, Duration),
    Extra(Seq<char>, Seq<char>),
}

impl View for ProtoEntry {
    type V = ProtoEntryV;

    open spec fn view(&self) -> ProtoEntryV {
        match self {
            ProtoEntry::Mark(m) => ProtoEntryV::Mark(m@),
            ProtoEntry::Meta(m) => ProtoEntryV::Meta(*m),
            ProtoEntry::Tie => ProtoEntryV::Tie,
            ProtoEntry::Rest(d) => ProtoEntryV::Rest(*d),
            ProtoEntry::Tone(notes, d) => ProtoEntryV::Tone(notes@, *d),
            ProtoEntry::Chord(c, d) => ProtoEntryV::Chord(c@, *d),
            ProtoEntry::Word(w, d) => ProtoEntryV::Word(w@, *d),
            ProtoEntry::Pick(strings, d) => ProtoEntryV::Pick(strings@, *d),
            ProtoEntry::Shape(frets, d) => ProtoEntryV::Shape(frets@, *d),
            ProtoEntry::Extra(k, v) => ProtoEntryV::Extra(k@, v@),
        }
    }
}

impl Clone for ProtoEntry {
    /// An entry clones to an entry with the same value.
    fn clone(&self) -> (r: Self)
        ensures
            r@ == self@,
    {
        match self {
            ProtoEntry::Mark(m) => ProtoEntry::Mark(m.clone()),
            ProtoEntry::Meta(m) => ProtoEntry::Meta(*m),
            ProtoEntry::Tie => ProtoEntry::Tie,
            ProtoEntry::Rest(d) => ProtoEntry::Rest(*d),
            ProtoEntry::Tone(notes, d) => ProtoEntry::Tone(copy_vec(notes), *d),
            ProtoEntry::Chord(c, d) => ProtoEntry::Chord(c.clone(), *d),
            ProtoEntry::Word(w, d) => ProtoEntry::Word(w.clone(), *d),
            ProtoEntry::Pick(strings, d) => ProtoEntry::Pick(copy_vec(strings), *d),
            ProtoEntry::Shape(frets, d) => ProtoEntry::Shape(copy_vec(frets), *d),
            ProtoEntry::Extra(k, v) => ProtoEntry::Extra(k.clone(), v.clone()),
        }
    }
}

impl ProtoEntry {
    /// Well formed: the payloads that carry their own invariant hold it.
    pub open spec fn wf(self) -> bool {
        match self {
            ProtoEntry::Meta(m) => m.wf(),
            ProtoEntry::Tone(notes, _) => forall|i: int|
                0 <= i < notes@.len() ==> (#[trigger] notes@[i]).wf(),
            ProtoEntry::Chord(c, _) => c.wf(),
            _ => true,
        }
    }

    /// The time an entry takes: marks, context mutations, ties and extra
    /// annotations are zero-length, events carry their duration.
    pub open spec fn spec_duration(self) -> Duration {
        match self {
            ProtoEntry::Mark(_) => Duration::Zero,
            ProtoEntry::Meta(_) => Duration::Zero,
            ProtoEntry::Tie => Duration::Zero,
            ProtoEntry::Rest(d) => d,
            ProtoEntry::Tone(_, d) => d,
            ProtoEntry::Chord(_, d) => d,
            ProtoEntry::Word(_, d) => d,
            ProtoEntry::Pick(_, d) => d,
            ProtoEntry::Shape(_, d) => d,
            ProtoEntry::Extra(_, _) => Duration::Zero,
        }
    }

    /// The time an entry takes.
    pub fn duration(&self) -> (r: Duration)
        ensures
            r == self.spec_duration(),
    {
        match self {
            ProtoEntry::Rest(d) => *d,
            ProtoEntry::Tone(_, d) => *d,
            ProtoEntry::Chord(_, d) => *d,
            ProtoEntry::Word(_, d) => *d,
            ProtoEntry::Pick(_, d) => *d,
            ProtoEntry::Shape(_, d) => *d,
            _ => Duration::Zero,
        }
    }

    /// True when the entry is a mark carrying the given name.
    pub open spec fn spec_is_mark_string(self, name: Seq<char>) -> bool {
        self@ matches ProtoEntryV::Mark(m) && m == name
    }

    /// True when the entry is a mark.
    pub fn is_mark(&self) -> (r: bool)
        ensures
            r == (self matches ProtoEntry::Mark(_)),
    {
        match self {
            ProtoEntry::Mark(_) => true,
            _ => false,
        }
    }

    /// True when the entry is a mark carrying exactly the given name.
    pub fn is_mark_string(&self, name: &String) -> (r: bool)
        ensures
            r == self.spec_is_mark_string(name@),
    {
        match self {
            ProtoEntry::Mark(m) => *m == *name,
            _ => false,
        }
    }
}

/// One resolved entry of a track: the entry's value together with its
/// index in the track's immutable entry list, so neighbours and marks can
/// be looked up without copying the list.
#[derive(Debug, PartialEq, Eq)]
pub struct ModelEntry {
    pub index: usize,
    pub value: ProtoEntry,
}

/// The mathematical value of a resolved entry.
#[verifier::ext_equal]
pub struct ModelEntryV {
    pub index: usize,
    pub value: ProtoEntryV,
}

impl View for ModelEntry {
    type V = ModelEntryV;

    open spec fn view(&self) -> ModelEntryV {
        ModelEntryV { index: self.index, value: self.value@ }
    }
}

impl Clone for ModelEntry {
    /// A model entry clones to a model entry with the same value.
    fn clone(&self) -> (r: Self)
        ensures
            r@ == self@,
    {
        ModelEntry { index: self.index, value: self.value.clone() }
    }
}

impl ModelEntry {
    pub fn new(index: usize, value: ProtoEntry) -> (r: ModelEntry)
        ensures
            r == (ModelEntry { index, value }),
    {
        ModelEntry { index, value }
    }

    /// Wrap a raw entry list: each entry keeps its position in the list
    /// as its index.
    pub fn new_entries(v: Vec<ProtoEntry>) -> (r: Vec<ModelEntry>)
        ensures
            r@.len() == v@.len(),
            forall|i: int|
                0 <= i < v@.len() ==> (#[trigger] r@[i])@.index == i && r@[i]@.value == v@[i]@,
    {
        let mut r: Vec<ModelEntry> = Vec::new();
        let mut i: usize = 0;
        while i < v.len()
            invariant
                0 <= i <= v@.len(),
                r@.len() == i,
                forall|k: int|
                    0 <= k < i ==> (#[trigger] r@[k])@.index == k && r@[k]@.value == v@[k]@,
            decreases v@.len() - i,
        {
            r.push(ModelEntry { index: i, value: v[i].clone() });
            i = i + 1;
        }
        r
    }
}

} // verus!
