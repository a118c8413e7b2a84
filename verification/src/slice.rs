use vstd::prelude::*;

verus! {

/// Where a slice begins: just after a named mark, or at a plain index.
#[derive(Debug, PartialEq, Eq)]
pub enum SliceBegin {
    Mark(String),
    Index(usize),
}

/// Where a slice ends: just before a named mark, or after a plain count
/// of entries.
#[derive(Debug, PartialEq, Eq)]
pub enum SliceEnd {
    Mark(String),
    Count(usize),
}

/// The mathematical value of a slice begin.
#[verifier::ext_equal]
pub enum SliceBeginV {
    Mark(Seq<char>),
    Index(usize),
}

/// The mathematical value of a slice end.
#[verifier::ext_equal]
pub enum SliceEndV {
    Mark(Seq<char>),
    Count(usize),
}

impl View for SliceBegin {
    type V = SliceBeginV;

    open spec fn view(&self) -> SliceBeginV {
        match self {
            SliceBegin::Mark(m) => SliceBeginV::Mark(m@),
            SliceBegin::Index(i) => SliceBeginV::Index(*i),
        }
    }
}

impl View for SliceEnd {
    type V = SliceEndV;

    open spec fn view(&self) -> SliceEndV {
        match self {
            SliceEnd::Mark(m) => SliceEndV::Mark(m@),
            SliceEnd::Count(n) => SliceEndV::Count(*n),
        }
    }
}

impl Clone for SliceBegin {
    /// A slice begin clones to one with the same value.
    fn clone(&self) -> (r: Self)
        ensures
            r@ == self@,
    {
        match self {
            SliceBegin::Mark(m) => SliceBegin::Mark(m.clone()),
            SliceBegin::Index(i) => SliceBegin::Index(*i),
        }
    }
}

impl Clone for SliceEnd {
    /// A slice end clones to one with the same value.
    fn clone(&self) -> (r: Self)
        ensures
            r@ == self@,
    {
        match self {
            SliceEnd::Mark(m) => SliceEnd::Mark(m.clone()),
            SliceEnd::Count(n) => SliceEnd::Count(*n),
        }
    }
}

/// A pure address pair into a track's entry list; it owns no entries.
#[derive(Debug, PartialEq, Eq)]
pub struct Slice {
    pub begin: SliceBegin,
    pub end: SliceEnd,
}

/// The mathematical value of a slice.
#[verifier::ext_equal]
pub struct SliceV {
    pub begin: SliceBeginV,
    pub end: SliceEndV,
}

impl View for Slice {
    type V = SliceV;

    open spec fn view(&self) -> SliceV {
        SliceV { begin: self.begin@, end: self.end@ }
    }
}

impl Clone for Slice {
    /// A slice clones to one with the same value.
    fn clone(&self) -> (r: Self)
        ensures
            r@ == self@,
    {
        Slice { begin: self.begin.clone(), end: self.end.clone() }
    }
}

impl Slice {
    pub fn new(begin: SliceBegin, end: SliceEnd) -> (r: Slice)
        ensures
            r == (Slice { begin, end }),
    {
        Slice { begin, end }
    }
}

/// One instruction of a bar layer: play a slice, a given number of times.
#[derive(Debug, PartialEq, Eq)]
pub struct LayerSlice {
    pub slice: Slice,
    pub repeat: usize,
}

/// The mathematical value of a layer instruction.
#[verifier::ext_equal]
pub struct LayerSliceV {
    pub slice: SliceV,
    pub repeat: usize,
}

impl View for LayerSlice {
    type V = LayerSliceV;

    open spec fn view(&self) -> LayerSliceV {
        LayerSliceV { slice: self.slice@, repeat: self.repeat }
    }
}

impl Clone for LayerSlice {
    /// A layer instruction clones to one with the same value.
    fn clone(&self) -> (r: Self)
        ensures
            r@ == self@,
    {
        LayerSlice { slice: self.slice.clone(), repeat: self.repeat }
    }
}

impl LayerSlice {
    pub fn new(slice: Slice, repeat: usize) -> (r: LayerSlice)
        ensures
            r == (LayerSlice { slice, repeat }),
    {
        LayerSlice { slice, repeat }
    }
}

} // verus!
