use vstd::prelude::*;

use crate::entry::{ProtoEntry, ProtoEntryV};
use crate::meta::TabMeta;
use crate::section::{SectionKind, SectionKindV};
use crate::slice::{LayerSlice, LayerSliceV};
use crate::track::TrackKind;

verus! {

/// A raw track, as the declarative front-end hands it over: an id, a
/// kind, and the ordered raw entry list.
#[derive(Debug, PartialEq, Eq)]
pub struct ProtoTrack {
    pub id: String,
    pub kind: TrackKind,
    pub entries: Vec<ProtoEntry>,
}

/// The mathematical value of a raw track.
#[verifier::ext_equal]
pub struct ProtoTrackV {
    pub id: Seq<char>,
    pub kind: TrackKind,
    pub entries: Seq<ProtoEntryV>,
}

impl View for ProtoTrack {
    type V = ProtoTrackV;

    open spec fn view(&self) -> ProtoTrackV {
        ProtoTrackV {
            id: self.id@,
            kind: self.kind,
            entries: self.entries@.map_values(|e: ProtoEntry| e@),
        }
    }
}

impl ProtoTrack {
    pub fn new(id: String, kind: TrackKind, entries: Vec<ProtoEntry>) -> (r: ProtoTrack)
        ensures
            r == (ProtoTrack { id, kind, entries }),
    {
        ProtoTrack { id, kind, entries }
    }
}

/// A raw bar layer: the id of the track it plays, and its slice
/// instructions.
#[derive(Debug, PartialEq, Eq)]
pub struct ProtoLayer {
    pub track: String,
    pub slices: Vec<LayerSlice>,
}

/// The mathematical value of a raw layer.
#[verifier::ext_equal]
pub struct ProtoLayerV {
    pub track: Seq<char>,
    pub slices: Seq<LayerSliceV>,
}

impl View for ProtoLayer {
    type V = ProtoLayerV;

    open spec fn view(&self) -> ProtoLayerV {
        ProtoLayerV {
            track: self.track@,
            slices: self.slices@.map_values(|s: LayerSlice| s@),
        }
    }
}

impl ProtoLayer {
    pub fn new(track: String, slices: Vec<LayerSlice>) -> (r: ProtoLayer)
        ensures
            r == (ProtoLayer { track, slices }),
    {
        ProtoLayer { track, slices }
    }
}

/// A raw bar template: one layer per participating track.
#[derive(Debug, PartialEq, Eq)]
pub struct ProtoBar {
    pub layers: Vec<ProtoLayer>,
}

/// The mathematical value of a raw bar.
#[verifier::ext_equal]
pub struct ProtoBarV {
    pub layers: Seq<ProtoLayerV>,
}

impl View for ProtoBar {
    type V = ProtoBarV;

    open spec fn view(&self) -> ProtoBarV {
        ProtoBarV { layers: self.layers@.map_values(|l: ProtoLayer| l@) }
    }
}

impl ProtoBar {
    pub fn new(layers: Vec<ProtoLayer>) -> (r: ProtoBar)
        ensures
            r == (ProtoBar { layers }),
    {
        ProtoBar { layers }
    }
}

/// A raw section: an id, a kind, and its bar templates.
#[derive(Debug, PartialEq, Eq)]
pub struct ProtoSection {
    pub id: String,
    pub kind: SectionKind,
    pub bars: Vec<ProtoBar>,
}

/// The mathematical value of a raw section.
#[verifier::ext_equal]
pub struct ProtoSectionV {
    pub id: Seq<char>,
    pub kind: SectionKindV,
    pub bars: Seq<ProtoBarV>,
}

impl View for ProtoSection {
    type V = ProtoSectionV;

    open spec fn view(&self) -> ProtoSectionV {
        ProtoSectionV {
            id: self.id@,
            kind: self.kind@,
            bars: self.bars@.map_values(|b: ProtoBar| b@),
        }
    }
}

impl ProtoSection {
    pub fn new(id: String, kind: SectionKind, bars: Vec<ProtoBar>) -> (r: ProtoSection)
        ensures
            r == (ProtoSection { id, kind, bars }),
    {
        ProtoSection { id, kind, bars }
    }
}

/// A whole raw song description: metadata, raw tracks, raw sections, and
/// the form as a list of section ids.
#[derive(Debug, PartialEq, Eq)]
pub struct ProtoTab {
    pub meta: TabMeta,
    pub tracks: Vec<ProtoTrack>,
    pub sections: Vec<ProtoSection>,
    pub form: Vec<String>,
}

/// The mathematical value of a raw song description.
#[verifier::ext_equal]
pub struct ProtoTabV {
    pub meta: TabMeta,
    pub tracks: Seq<ProtoTrackV>,
    pub sections: Seq<ProtoSectionV>,
    pub form: Seq<Seq<char>>,
}

impl View for ProtoTab {
    type V = ProtoTabV;

    open spec fn view(&self) -> ProtoTabV {
        ProtoTabV {
            meta: self.meta,
            tracks: self.tracks@.map_values(|t: ProtoTrack| t@),
            sections: self.sections@.map_values(|s: ProtoSection| s@),
            form: self.form@.map_values(|f: String| f@),
        }
    }
}

impl ProtoTab {
    pub fn new(
        meta: TabMeta,
        tracks: Vec<ProtoTrack>,
        sections: Vec<ProtoSection>,
        form: Vec<String>,
    ) -> (r: ProtoTab)
        ensures
            r == (ProtoTab { meta, tracks, sections, form }),
    {
        ProtoTab { meta, tracks, sections, form }
    }
}

} // verus!
