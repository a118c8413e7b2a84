use vstd::prelude::*;

use crate::bar::{Bar, BarV};

verus! {

/// What part of a song a section is.
#[derive(Debug, PartialEq, Eq)]
pub enum SectionKind {
    Ready,
    Intro,
    Verse,
    Chorus,
    Bridge,
    Outro,
    PreChorus,
    Solo,
    Custom(String),
}

/// The mathematical value of a section kind.
#[verifier::ext_equal]
pub enum SectionKindV {
    Ready,
    Intro,
    Verse,
    Chorus,
    Bridge,
    Outro,
    PreChorus,
    Solo,
    Custom(Seq<char>),
}

impl View for SectionKind {
    type V = SectionKindV;

    open spec fn view(&self) -> SectionKindV {
        match self {
            SectionKind::Ready => SectionKindV::Ready,
            SectionKind::Intro => SectionKindV::Intro,
            SectionKind::Verse => SectionKindV::Verse,
            SectionKind::Chorus => SectionKindV::Chorus,
            SectionKind::Bridge => SectionKindV::Bridge,
            SectionKind::Outro => SectionKindV::Outro,
            SectionKind::PreChorus => SectionKindV::PreChorus,
            SectionKind::Solo => SectionKindV::Solo,
            SectionKind::Custom(s) => SectionKindV::Custom(s@),
        }
    }
}

impl Clone for SectionKind {
    /// A section kind clones to one with the same value.
    fn clone(&self) -> (r: Self)
        ensures
            r@ == self@,
    {
        match self {
            SectionKind::Ready => SectionKind::Ready,
            SectionKind::Intro => SectionKind::Intro,
            SectionKind::Verse => SectionKind::Verse,
            SectionKind::Chorus => SectionKind::Chorus,
            SectionKind::Bridge => SectionKind::Bridge,
            SectionKind::Outro => SectionKind::Outro,
            SectionKind::PreChorus => SectionKind::PreChorus,
            SectionKind::Solo => SectionKind::Solo,
            SectionKind::Custom(s) => SectionKind::Custom(s.clone()),
        }
    }
}

/// A reusable run of bar templates, shared by every occurrence of its id
/// in the form.
#[derive(Debug, PartialEq, Eq)]
pub struct Section {
    pub id: String,
    pub kind: SectionKind,
    pub bars: Vec<Bar>,
}

/// The mathematical value of a section.
#[verifier::ext_equal]
pub struct SectionV {
    pub id: Seq<char>,
    pub kind: SectionKindV,
    pub bars: Seq<BarV>,
}

impl View for Section {
    type V = SectionV;

    open spec fn view(&self) -> SectionV {
        SectionV { id: self.id@, kind: self.kind@, bars: self.bars@.map_values(|b: Bar| b@) }
    }
}

impl Section {
    pub fn new(id: String, kind: SectionKind, bars: Vec<Bar>) -> (r: Section)
        ensures
            r == (Section { id, kind, bars }),
    {
        Section { id, kind, bars }
    }
}

/// A form: the order the sections play in, each entry the position of a
/// section in the tab's section list. A section may appear any number of
/// times.
#[derive(Debug, PartialEq, Eq)]
pub struct Form {
    pub sections: Vec<usize>,
}

impl View for Form {
    type V = Seq<usize>;

    open spec fn view(&self) -> Seq<usize> {
        self.sections@
    }
}

impl Form {
    pub fn new(sections: Vec<usize>) -> (r: Form)
        ensures
            r == (Form { sections }),
    {
        Form { sections }
    }
}

} // verus!
