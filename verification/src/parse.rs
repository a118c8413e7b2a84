use vstd::prelude::*;

use std::sync::Arc;

use crate::bar::{Bar, BarLayer, BarLayerV, BarV};
use crate::entry::ProtoEntry;
use crate::proto::{ProtoBarV, ProtoLayerV, ProtoSectionV, ProtoTab, ProtoTabV, ProtoTrackV};
use crate::section::{Form, Section, SectionV};
use crate::slice::LayerSlice;
use crate::tab::{section_views, tab_bars_spec, total_bars, track_views, Tab};
use crate::track::{Track, TrackV};

verus! {

/// Why resolution failed: a layer named a track id absent from the track
/// registry, or a form entry named a section id absent from the section
/// registry. Resolution is all-or-nothing: no partial tab is produced.
#[derive(Debug, PartialEq, Eq)]
pub enum ParseError {
    TrackNotFound(String),
    SectionNotFound(String),
}

impl ParseError {
    /// The id that could not be found.
    pub fn missing_id(&self) -> (r: &String)
        ensures
            match self {
                ParseError::TrackNotFound(id) => r == id,
                ParseError::SectionNotFound(id) => r == id,
            },
    {
        match self {
            ParseError::TrackNotFound(id) => id,
            ParseError::SectionNotFound(id) => id,
        }
    }
}

/// The position of the first id in the list equal to the one sought.
pub open spec fn first_id_index(ids: Seq<Seq<char>>, id: Seq<char>) -> Option<int>
    decreases ids.len(),
{
    if ids.len() == 0 {
        None
    } else if ids[0] == id {
        Some(0)
    } else {
        match first_id_index(ids.drop_first(), id) {
            Some(i) => Some(i + 1),
            None => None,
        }
    }
}

/// What the id lookup returns: the first position carrying the id, or
/// nothing when no position does.
pub proof fn lemma_first_id_index(ids: Seq<Seq<char>>, id: Seq<char>)
    ensures
        match first_id_index(ids, id) {
            Some(i) => 0 <= i < ids.len() && ids[i] == id && forall|j: int|
                0 <= j < i ==> ids[j] != id,
            None => forall|j: int| 0 <= j < ids.len() ==> ids[j] != id,
        },
    decreases ids.len(),
{
    if ids.len() > 0 && ids[0] != id {
        let rest = ids.drop_first();
        lemma_first_id_index(rest, id);
        assert(forall|j: int| 0 <= j < rest.len() ==> rest[j] == ids[j + 1]);
        match first_id_index(rest, id) {
            Some(i) => {
                assert forall|j: int| 0 <= j < i + 1 implies ids[j] != id by {
                    if j > 0 {
                        assert(rest[j - 1] != id);
                    }
                }
            },
            None => {
                assert forall|j: int| 0 <= j < ids.len() implies ids[j] != id by {
                    if j > 0 {
                        assert(rest[j - 1] != id);
                    }
                }
            },
        }
    }
}

/// The ids of a track list.
pub open spec fn track_ids(tracks: Seq<TrackV>) -> Seq<Seq<char>> {
    tracks.map_values(|t: TrackV| t.id)
}

/// The ids of a raw track list.
pub open spec fn proto_track_ids(tracks: Seq<ProtoTrackV>) -> Seq<Seq<char>> {
    tracks.map_values(|t: ProtoTrackV| t.id)
}

/// The ids of a section list.
pub open spec fn section_ids(sections: Seq<SectionV>) -> Seq<Seq<char>> {
    sections.map_values(|s: SectionV| s.id)
}

/// The ids of a raw section list.
pub open spec fn proto_section_ids(sections: Seq<ProtoSectionV>) -> Seq<Seq<char>> {
    sections.map_values(|s: ProtoSectionV| s.id)
}

/// The first track id a layer list names that the registry does not hold,
/// in layer order.
pub open spec fn missing_track_in_layers(layers: Seq<ProtoLayerV>, ids: Seq<Seq<char>>) -> Option<
    Seq<char>,
>
    decreases layers.len(),
{
    if layers.len() == 0 {
        None
    } else if first_id_index(ids, layers[0].track) is None {
        Some(layers[0].track)
    } else {
        missing_track_in_layers(layers.drop_first(), ids)
    }
}

/// The first missing track id among a bar list's layers, in bar order.
pub open spec fn missing_track_in_bars(bars: Seq<ProtoBarV>, ids: Seq<Seq<char>>) -> Option<
    Seq<char>,
>
    decreases bars.len(),
{
    if bars.len() == 0 {
        None
    } else {
        match missing_track_in_layers(bars[0].layers, ids) {
            Some(id) => Some(id),
            None => missing_track_in_bars(bars.drop_first(), ids),
        }
    }
}

/// The first missing track id among a section list's bars, in section
/// order.
pub open spec fn missing_track_in_sections(
    sections: Seq<ProtoSectionV>,
    ids: Seq<Seq<char>>,
) -> Option<Seq<char>>
    decreases sections.len(),
{
    if sections.len() == 0 {
        None
    } else {
        match missing_track_in_bars(sections[0].bars, ids) {
            Some(id) => Some(id),
            None => missing_track_in_sections(sections.drop_first(), ids),
        }
    }
}

/// The first form entry that names no section of the registry, in form
/// order.
pub open spec fn missing_section_in_form(form: Seq<Seq<char>>, ids: Seq<Seq<char>>) -> Option<
    Seq<char>,
>
    decreases form.len(),
{
    if form.len() == 0 {
        None
    } else if first_id_index(ids, form[0]) is None {
        Some(form[0])
    } else {
        missing_section_in_form(form.drop_first(), ids)
    }
}

/// A layer list has no missing track exactly when every layer's track id
/// is in the registry.
pub proof fn lemma_missing_track_in_layers_none_iff(layers: Seq<ProtoLayerV>, ids: Seq<Seq<char>>)
    ensures
        (missing_track_in_layers(layers, ids) is None) <==> (forall|l: int|
            0 <= l < layers.len() ==> first_id_index(ids, (#[trigger] layers[l]).track) is Some),
    decreases layers.len(),
{
    if layers.len() > 0 {
        let rest = layers.drop_first();
        lemma_missing_track_in_layers_none_iff(rest, ids);
        assert(forall|l: int| 0 <= l < rest.len() ==> rest[l] == layers[l + 1]);
        if first_id_index(ids, layers[0].track) is Some {
            if missing_track_in_layers(rest, ids) is None {
                assert forall|l: int|
                    0 <= l < layers.len() implies first_id_index(
                    ids,
                    (#[trigger] layers[l]).track,
                ) is Some by {
                    if l > 0 {
                        assert(rest[l - 1] == layers[l]);
                    }
                }
            }
        }
    }
}

/// A bar list has no missing track exactly when none of its layers has
/// one.
pub proof fn lemma_missing_track_in_bars_none_iff(bars: Seq<ProtoBarV>, ids: Seq<Seq<char>>)
    ensures
        (missing_track_in_bars(bars, ids) is None) <==> (forall|b: int|
            0 <= b < bars.len() ==> missing_track_in_layers(
                (#[trigger] bars[b]).layers,
                ids,
            ) is None),
    decreases bars.len(),
{
    if bars.len() > 0 {
        let rest = bars.drop_first();
        lemma_missing_track_in_bars_none_iff(rest, ids);
        assert(forall|b: int| 0 <= b < rest.len() ==> rest[b] == bars[b + 1]);
        if missing_track_in_layers(bars[0].layers, ids) is None {
            if missing_track_in_bars(rest, ids) is None {
                assert forall|b: int|
                    0 <= b < bars.len() implies missing_track_in_layers(
                    (#[trigger] bars[b]).layers,
                    ids,
                ) is None by {
                    if b > 0 {
                        assert(rest[b - 1] == bars[b]);
                    }
                }
            }
        }
    }
}

/// A section list has no missing track exactly when none of its bars has
/// one: resolution succeeds on the track side exactly when every track id
/// any layer names exists in the registry.
pub proof fn lemma_missing_track_in_sections_none_iff(
    sections: Seq<ProtoSectionV>,
    ids: Seq<Seq<char>>,
)
    ensures
        (missing_track_in_sections(sections, ids) is None) <==> (forall|s: int|
            0 <= s < sections.len() ==> missing_track_in_bars(
                (#[trigger] sections[s]).bars,
                ids,
            ) is None),
    decreases sections.len(),
{
    if sections.len() > 0 {
        let rest = sections.drop_first();
        lemma_missing_track_in_sections_none_iff(rest, ids);
        assert(forall|s: int| 0 <= s < rest.len() ==> rest[s] == sections[s + 1]);
        if missing_track_in_bars(sections[0].bars, ids) is None {
            if missing_track_in_sections(rest, ids) is None {
                assert forall|s: int|
                    0 <= s < sections.len() implies missing_track_in_bars(
                    (#[trigger] sections[s]).bars,
                    ids,
                ) is None by {
                    if s > 0 {
                        assert(rest[s - 1] == sections[s]);
                    }
                }
            }
        }
    }
}

/// A form has no missing section exactly when every entry's id is in the
/// registry: resolution succeeds on the form side exactly then.
pub proof fn lemma_missing_section_in_form_none_iff(form: Seq<Seq<char>>, ids: Seq<Seq<char>>)
    ensures
        (missing_section_in_form(form, ids) is None) <==> (forall|k: int|
            0 <= k < form.len() ==> first_id_index(ids, #[trigger] form[k]) is Some),
    decreases form.len(),
{
    if form.len() > 0 {
        let rest = form.drop_first();
        lemma_missing_section_in_form_none_iff(rest, ids);
        assert(forall|k: int| 0 <= k < rest.len() ==> rest[k] == form[k + 1]);
        if first_id_index(ids, form[0]) is Some {
            if missing_section_in_form(rest, ids) is None {
                assert forall|k: int|
                    0 <= k < form.len() implies first_id_index(
                    ids,
                    #[trigger] form[k],
                ) is Some by {
                    if k > 0 {
                        assert(rest[k - 1] == form[k]);
                    }
                }
            }
        }
    }
}

/// How many bars the first `k` form entries stand for in the raw input:
/// each resolved against the raw section registry by id, an unresolvable
/// entry counting zero.
pub open spec fn proto_bars_before(
    sections: Seq<ProtoSectionV>,
    form: Seq<Seq<char>>,
    k: int,
) -> int
    decreases k,
{
    if k <= 0 {
        0
    } else {
        proto_bars_before(sections, form, k - 1) + match first_id_index(
            proto_section_ids(sections),
            form[k - 1],
        ) {
            Some(s) => sections[s].bars.len() as int,
            None => 0,
        }
    }
}

/// How many bars the whole raw form stands for.
pub open spec fn proto_total_bars(v: ProtoTabV) -> int {
    proto_bars_before(v.sections, v.form, v.form.len() as int)
}

/// A resolved layer stands for a raw layer: its track is the first
/// registry track with the raw layer's id, and its slices are the raw
/// slices.
pub open spec fn layer_corresponds(p: ProtoLayerV, l: BarLayerV, ids: Seq<Seq<char>>) -> bool {
    &&& first_id_index(ids, p.track) == Some(l.track as int)
    &&& l.slices == p.slices
}

/// A resolved bar stands for a raw bar, layer by layer.
pub open spec fn bar_corresponds(p: ProtoBarV, b: BarV, ids: Seq<Seq<char>>) -> bool {
    &&& b.layers.len() == p.layers.len()
    &&& forall|l: int|
        0 <= l < p.layers.len() ==> layer_corresponds(p.layers[l], #[trigger] b.layers[l], ids)
}

/// A resolved section stands for a raw section, bar by bar.
pub open spec fn section_corresponds(p: ProtoSectionV, s: SectionV, ids: Seq<Seq<char>>) -> bool {
    &&& s.id == p.id
    &&& s.kind == p.kind
    &&& s.bars.len() == p.bars.len()
    &&& forall|b: int|
        0 <= b < p.bars.len() ==> bar_corresponds(p.bars[b], #[trigger] s.bars[b], ids)
}

/// A resolved track stands for a raw track: same id and kind, each raw
/// entry wrapped with its position as its index.
pub open spec fn track_corresponds(p: ProtoTrackV, t: TrackV) -> bool {
    &&& t.id == p.id
    &&& t.kind == p.kind
    &&& t.entries.len() == p.entries.len()
    &&& forall|j: int|
        0 <= j < p.entries.len() ==> (#[trigger] t.entries[j]).index == j && t.entries[j].value
            == p.entries[j]
}

/// Copy a raw entry list value for value.
fn clone_entries(v: &Vec<ProtoEntry>) -> (r: Vec<ProtoEntry>)
    ensures
        r@.len() == v@.len(),
        forall|i: int| 0 <= i < v@.len() ==> (#[trigger] r@[i])@ == v@[i]@,
{
    let mut r: Vec<ProtoEntry> = Vec::new();
    let mut i: usize = 0;
    while i < v.len()
        invariant
            0 <= i <= v@.len(),
            r@.len() == i,
            forall|k: int| 0 <= k < i ==> (#[trigger] r@[k])@ == v@[k]@,
        decreases v@.len() - i,
    {
        r.push(v[i].clone());
        i = i + 1;
    }
    r
}

/// Copy a slice instruction list value for value.
fn clone_slices(v: &Vec<LayerSlice>) -> (r: Vec<LayerSlice>)
    ensures
        r@.len() == v@.len(),
        forall|i: int| 0 <= i < v@.len() ==> (#[trigger] r@[i])@ == v@[i]@,
{
    let mut r: Vec<LayerSlice> = Vec::new();
    let mut i: usize = 0;
    while i < v.len()
        invariant
            0 <= i <= v@.len(),
            r@.len() == i,
            forall|k: int| 0 <= k < i ==> (#[trigger] r@[k])@ == v@[k]@,
        decreases v@.len() - i,
    {
        r.push(v[i].clone());
        i = i + 1;
    }
    r
}

/// The position of the first registry track with the given id.
fn find_track_index(tracks: &Vec<Track>, id: &String) -> (r: Option<usize>)
    ensures
        match r {
            Some(i) => first_id_index(track_ids(track_views(tracks@)), id@) == Some(i as int),
            None => first_id_index(track_ids(track_views(tracks@)), id@) is None,
        },
{
    let ghost ids = track_ids(track_views(tracks@));
    let mut i: usize = 0;
    while i < tracks.len()
        invariant
            0 <= i <= tracks@.len(),
            ids == track_ids(track_views(tracks@)),
            ids.len() == tracks@.len(),
            forall|j: int| 0 <= j < i ==> ids[j] != id@,
        decreases tracks@.len() - i,
    {
        if tracks[i].id == *id {
            proof {
                lemma_first_id_index_converse_some(ids, id@, i as int);
            }
            return Some(i);
        }
        i = i + 1;
    }
    proof {
        lemma_first_id_index_converse_none(ids, id@);
    }
    None
}

/// The position of the first registry section with the given id.
fn find_section_index(sections: &Vec<Section>, id: &String) -> (r: Option<usize>)
    ensures
        match r {
            Some(i) => first_id_index(section_ids(section_views(sections@)), id@) == Some(
                i as int,
            ),
            None => first_id_index(section_ids(section_views(sections@)), id@) is None,
        },
{
    let ghost ids = section_ids(section_views(sections@));
    let mut i: usize = 0;
    while i < sections.len()
        invariant
            0 <= i <= sections@.len(),
            ids == section_ids(section_views(sections@)),
            ids.len() == sections@.len(),
            forall|j: int| 0 <= j < i ==> ids[j] != id@,
        decreases sections@.len() - i,
    {
        if sections[i].id == *id {
            proof {
                lemma_first_id_index_converse_some(ids, id@, i as int);
            }
            return Some(i);
        }
        i = i + 1;
    }
    proof {
        lemma_first_id_index_converse_none(ids, id@);
    }
    None
}

/// A position that carries the id, with none before it, is what the id
/// lookup returns.
proof fn lemma_first_id_index_converse_some(ids: Seq<Seq<char>>, id: Seq<char>, i: int)
    requires
        0 <= i < ids.len(),
        ids[i] == id,
        forall|j: int| 0 <= j < i ==> ids[j] != id,
    ensures
        first_id_index(ids, id) == Some(i),
    decreases i,
{
    if i > 0 {
        lemma_first_id_index_converse_some(ids.drop_first(), id, i - 1);
    }
}

/// When no position carries the id, the lookup returns nothing.
proof fn lemma_first_id_index_converse_none(ids: Seq<Seq<char>>, id: Seq<char>)
    requires
        forall|j: int| 0 <= j < ids.len() ==> ids[j] != id,
    ensures
        first_id_index(ids, id) is None,
    decreases ids.len(),
{
    if ids.len() > 0 {
        lemma_first_id_index_converse_none(ids.drop_first(), id);
    }
}

/// Resolve each raw layer's track id against the track registry.
fn convert_layers(layers: &Vec<crate::proto::ProtoLayer>, tracks: &Vec<Track>) -> (r: Result<
    Vec<BarLayer>,
    ParseError,
>)
    ensures
        ({
            let layers_v = layers@.map_values(|l: crate::proto::ProtoLayer| l@);
            let ids = track_ids(track_views(tracks@));
            match r {
                Ok(built) => {
                    &&& missing_track_in_layers(layers_v, ids) is None
                    &&& built@.len() == layers_v.len()
                    &&& forall|i: int|
                        0 <= i < layers_v.len() ==> layer_corresponds(
                            layers_v[i],
                            (#[trigger] built@[i])@,
                            ids,
                        )
                },
                Err(e) => e matches ParseError::TrackNotFound(id) && missing_track_in_layers(
                    layers_v,
                    ids,
                ) == Some(id@),
            }
        }),
{
    let ghost layers_v = layers@.map_values(|l: crate::proto::ProtoLayer| l@);
    let ghost ids = track_ids(track_views(tracks@));
    proof {
        assert(layers_v.skip(0) =~= layers_v);
    }
    let mut built: Vec<BarLayer> = Vec::new();
    let mut i: usize = 0;
    while i < layers.len()
        invariant
            0 <= i <= layers@.len(),
            layers_v == layers@.map_values(|l: crate::proto::ProtoLayer| l@),
            layers_v.len() == layers@.len(),
            ids == track_ids(track_views(tracks@)),
            built@.len() == i,
            forall|k: int|
                0 <= k < i ==> layer_corresponds(layers_v[k], (#[trigger] built@[k])@, ids),
            missing_track_in_layers(layers_v, ids) == missing_track_in_layers(
                layers_v.skip(i as int),
                ids,
            ),
        decreases layers@.len() - i,
    {
        proof {
            assert(layers_v.skip(i as int)[0] == layers_v[i as int]);
            assert(layers_v.skip(i as int).drop_first() =~= layers_v.skip(i + 1));
        }
        let layer = &layers[i];
        match find_track_index(tracks, &layer.track) {
            Some(ti) => {
                let slices = clone_slices(&layer.slices);
                let new_layer = BarLayer::new(ti, slices);
                proof {
                    assert(new_layer@.slices =~= layers_v[i as int].slices);
                }
                built.push(new_layer);
            },
            None => {
                return Err(ParseError::TrackNotFound(layer.track.clone()));
            },
        }
        i = i + 1;
    }
    proof {
        assert(layers_v.skip(i as int).len() == 0);
    }
    Ok(built)
}

/// Resolve each raw bar's layers against the track registry.
fn convert_bars(bars: &Vec<crate::proto::ProtoBar>, tracks: &Vec<Track>) -> (r: Result<
    Vec<Bar>,
    ParseError,
>)
    ensures
        ({
            let bars_v = bars@.map_values(|b: crate::proto::ProtoBar| b@);
            let ids = track_ids(track_views(tracks@));
            match r {
                Ok(built) => {
                    &&& missing_track_in_bars(bars_v, ids) is None
                    &&& built@.len() == bars_v.len()
                    &&& forall|i: int|
                        0 <= i < bars_v.len() ==> bar_corresponds(
                            bars_v[i],
                            (#[trigger] built@[i])@,
                            ids,
                        )
                },
                Err(e) => e matches ParseError::TrackNotFound(id) && missing_track_in_bars(
                    bars_v,
                    ids,
                ) == Some(id@),
            }
        }),
{
    let ghost bars_v = bars@.map_values(|b: crate::proto::ProtoBar| b@);
    let ghost ids = track_ids(track_views(tracks@));
    proof {
        assert(bars_v.skip(0) =~= bars_v);
    }
    let mut built: Vec<Bar> = Vec::new();
    let mut i: usize = 0;
    while i < bars.len()
        invariant
            0 <= i <= bars@.len(),
            bars_v == bars@.map_values(|b: crate::proto::ProtoBar| b@),
            bars_v.len() == bars@.len(),
            ids == track_ids(track_views(tracks@)),
            built@.len() == i,
            forall|k: int| 0 <= k < i ==> bar_corresponds(bars_v[k], (#[trigger] built@[k])@, ids),
            missing_track_in_bars(bars_v, ids) == missing_track_in_bars(
                bars_v.skip(i as int),
                ids,
            ),
        decreases bars@.len() - i,
    {
        proof {
            assert(bars_v.skip(i as int)[0] == bars_v[i as int]);
            assert(bars_v.skip(i as int).drop_first() =~= bars_v.skip(i + 1));
        }
        match convert_layers(&bars[i].layers, tracks) {
            Ok(layers) => {
                let new_bar = Bar::new(layers);
                proof {
                    assert(new_bar@.layers.len() == bars_v[i as int].layers.len());
                }
                built.push(new_bar);
            },
            Err(e) => {
                return Err(e);
            },
        }
        i = i + 1;
    }
    proof {
        assert(bars_v.skip(i as int).len() == 0);
    }
    Ok(built)
}

/// Resolve each raw section against the track registry; the first missing
/// track id fails the whole conversion.
fn convert_sections(sections: &Vec<crate::proto::ProtoSection>, tracks: &Vec<Track>) -> (r: Result<
    Vec<Section>,
    ParseError,
>)
    ensures
        ({
            let sections_v = sections@.map_values(|s: crate::proto::ProtoSection| s@);
            let ids = track_ids(track_views(tracks@));
            match r {
                Ok(built) => {
                    &&& missing_track_in_sections(sections_v, ids) is None
                    &&& built@.len() == sections_v.len()
                    &&& forall|i: int|
                        0 <= i < sections_v.len() ==> section_corresponds(
                            sections_v[i],
                            (#[trigger] built@[i])@,
                            ids,
                        )
                },
                Err(e) => e matches ParseError::TrackNotFound(id) && missing_track_in_sections(
                    sections_v,
                    ids,
                ) == Some(id@),
            }
        }),
{
    let ghost sections_v = sections@.map_values(|s: crate::proto::ProtoSection| s@);
    let ghost ids = track_ids(track_views(tracks@));
    proof {
        assert(sections_v.skip(0) =~= sections_v);
    }
    let mut built: Vec<Section> = Vec::new();
    let mut i: usize = 0;
    while i < sections.len()
        invariant
            0 <= i <= sections@.len(),
            sections_v == sections@.map_values(|s: crate::proto::ProtoSection| s@),
            sections_v.len() == sections@.len(),
            ids == track_ids(track_views(tracks@)),
            built@.len() == i,
            forall|k: int|
                0 <= k < i ==> section_corresponds(sections_v[k], (#[trigger] built@[k])@, ids),
            missing_track_in_sections(sections_v, ids) == missing_track_in_sections(
                sections_v.skip(i as int),
                ids,
            ),
        decreases sections@.len() - i,
    {
        proof {
            assert(sections_v.skip(i as int)[0] == sections_v[i as int]);
            assert(sections_v.skip(i as int).drop_first() =~= sections_v.skip(i + 1));
        }
        let section = &sections[i];
        match convert_bars(&section.bars, tracks) {
            Ok(bars) => {
                let new_section = Section::new(section.id.clone(), section.kind.clone(), bars);
                proof {
                    assert(new_section@.bars.len() == sections_v[i as int].bars.len());
                }
                built.push(new_section);
            },
            Err(e) => {
                return Err(e);
            },
        }
        i = i + 1;
    }
    proof {
        assert(sections_v.skip(i as int).len() == 0);
    }
    Ok(built)
}

/// Resolve each form entry against the section registry; the first missing
/// section id fails the whole conversion.
fn convert_form(form: &Vec<String>, sections: &Vec<Section>) -> (r: Result<Form, ParseError>)
    ensures
        ({
            let form_v = form@.map_values(|f: String| f@);
            let ids = section_ids(section_views(sections@));
            match r {
                Ok(built) => {
                    &&& missing_section_in_form(form_v, ids) is None
                    &&& built@.len() == form_v.len()
                    &&& forall|k: int|
                        0 <= k < form_v.len() ==> first_id_index(ids, form_v[k]) == Some(
                            (#[trigger] built@[k]) as int,
                        )
                },
                Err(e) => e matches ParseError::SectionNotFound(id) && missing_section_in_form(
                    form_v,
                    ids,
                ) == Some(id@),
            }
        }),
{
    let ghost form_v = form@.map_values(|f: String| f@);
    let ghost ids = section_ids(section_views(sections@));
    proof {
        assert(form_v.skip(0) =~= form_v);
    }
    let mut indices: Vec<usize> = Vec::new();
    let mut k: usize = 0;
    while k < form.len()
        invariant
            0 <= k <= form@.len(),
            form_v == form@.map_values(|f: String| f@),
            form_v.len() == form@.len(),
            ids == section_ids(section_views(sections@)),
            indices@.len() == k,
            forall|j: int|
                0 <= j < k ==> first_id_index(ids, form_v[j]) == Some(
                    (#[trigger] indices@[j]) as int,
                ),
            missing_section_in_form(form_v, ids) == missing_section_in_form(
                form_v.skip(k as int),
                ids,
            ),
        decreases form@.len() - k,
    {
        proof {
            assert(form_v.skip(k as int)[0] == form_v[k as int]);
            assert(form_v.skip(k as int).drop_first() =~= form_v.skip(k + 1));
        }
        match find_section_index(sections, &form[k]) {
            Some(si) => {
                indices.push(si);
            },
            None => {
                return Err(ParseError::SectionNotFound(form[k].clone()));
            },
        }
        k = k + 1;
    }
    proof {
        assert(form_v.skip(k as int).len() == 0);
    }
    Ok(Form::new(indices))
}

/// Wrap each raw track into a resolved track.
fn convert_tracks(tracks: &Vec<crate::proto::ProtoTrack>) -> (r: Vec<Track>)
    ensures
        r@.len() == tracks@.len(),
        forall|i: int|
            0 <= i < tracks@.len() ==> track_corresponds(tracks@[i]@, (#[trigger] r@[i])@)
                && r@[i].wf(),
{
    let mut r: Vec<Track> = Vec::new();
    let mut i: usize = 0;
    while i < tracks.len()
        invariant
            0 <= i <= tracks@.len(),
            r@.len() == i,
            forall|k: int|
                0 <= k < i ==> track_corresponds(tracks@[k]@, (#[trigger] r@[k])@) && r@[k].wf(),
        decreases tracks@.len() - i,
    {
        let pt = &tracks[i];
        let entries = clone_entries(&pt.entries);
        let track = Track::from_raw(pt.id.clone(), pt.kind, entries);
        proof {
            assert(track_corresponds(tracks@[i as int]@, track@));
        }
        r.push(track);
        i = i + 1;
    }
    r
}

/// With the registries corresponding id for id and bar count for bar
/// count, the resolved form stands for the same bar total as the raw one.
proof fn lemma_bars_before_corresponds(
    psecs: Seq<ProtoSectionV>,
    secs: Seq<SectionV>,
    pform: Seq<Seq<char>>,
    form: Seq<usize>,
    k: int,
)
    requires
        section_ids(secs) == proto_section_ids(psecs),
        secs.len() == psecs.len(),
        forall|s: int| 0 <= s < secs.len() ==> (#[trigger] secs[s]).bars.len() == psecs[s].bars.len(),
        form.len() == pform.len(),
        forall|j: int|
            0 <= j < form.len() ==> first_id_index(section_ids(secs), pform[j]) == Some(
                (#[trigger] form[j]) as int,
            ),
        0 <= k <= form.len(),
    ensures
        crate::tab::bars_before(secs, form, k) == proto_bars_before(psecs, pform, k),
    decreases k,
{
    if k > 0 {
        lemma_bars_before_corresponds(psecs, secs, pform, form, k - 1);
        lemma_first_id_index(section_ids(secs), pform[k - 1]);
    }
}

impl Tab {
    /// Resolve a whole raw song description into the finished tab: wrap
    /// the tracks, resolve every layer's track id and every form entry's
    /// section id against the registries, and expand the form. Fails with
    /// the first missing id, in input order, tracks before form; no
    /// partial tab is produced.
    pub fn try_parse_arc(v: ProtoTab) -> (r: Result<Arc<Tab>, ParseError>)
        requires
            proto_total_bars(v@) < usize::MAX,
        ensures
            match r {
                Ok(tab) => {
                    &&& missing_track_in_sections(v@.sections, proto_track_ids(v@.tracks)) is None
                    &&& missing_section_in_form(v@.form, proto_section_ids(v@.sections)) is None
                    &&& tab.wf()
                    &&& tab.meta == v@.meta
                    &&& tab.tracks@.len() == v@.tracks.len()
                    &&& forall|i: int|
                        0 <= i < v@.tracks.len() ==> track_corresponds(
                            v@.tracks[i],
                            (#[trigger] tab.tracks@[i])@,
                        )
                    &&& tab.sections@.len() == v@.sections.len()
                    &&& forall|i: int|
                        0 <= i < v@.sections.len() ==> section_corresponds(
                            v@.sections[i],
                            (#[trigger] tab.sections@[i])@,
                            proto_track_ids(v@.tracks),
                        )
                    &&& tab.form@.len() == v@.form.len()
                    &&& forall|k: int|
                        0 <= k < v@.form.len() ==> first_id_index(
                            proto_section_ids(v@.sections),
                            v@.form[k],
                        ) == Some((#[trigger] tab.form@[k]) as int)
                    &&& tab.bars@ == tab_bars_spec(section_views(tab.sections@), tab.form@)
                },
                Err(ParseError::TrackNotFound(id)) => missing_track_in_sections(
                    v@.sections,
                    proto_track_ids(v@.tracks),
                ) == Some(id@),
                Err(ParseError::SectionNotFound(id)) => {
                    &&& missing_track_in_sections(v@.sections, proto_track_ids(v@.tracks)) is None
                    &&& missing_section_in_form(v@.form, proto_section_ids(v@.sections)) == Some(
                        id@,
                    )
                },
            },
    {
        let tracks = convert_tracks(&v.tracks);
        proof {
            assert(track_ids(track_views(tracks@)) =~= proto_track_ids(v@.tracks));
            assert(v.sections@.map_values(|s: crate::proto::ProtoSection| s@) == v@.sections);
        }
        let sections = match convert_sections(&v.sections, &tracks) {
            Ok(sections) => sections,
            Err(e) => {
                return Err(e);
            },
        };
        proof {
            assert(section_ids(section_views(sections@)) =~= proto_section_ids(v@.sections));
            assert(v.form@.map_values(|f: String| f@) == v@.form);
        }
        let form = match convert_form(&v.form, &sections) {
            Ok(form) => form,
            Err(e) => {
                return Err(e);
            },
        };
        proof {
            let secs = section_views(sections@);
            let ids = proto_track_ids(v@.tracks);
            assert forall|s: int| 0 <= s < secs.len() implies (#[trigger] secs[s]).bars.len()
                == v@.sections[s].bars.len() by {
                assert(section_corresponds(v@.sections[s], secs[s], ids));
            }
            assert forall|k: int| 0 <= k < form@.len() implies (#[trigger] form@[k])
                < secs.len() by {
                lemma_first_id_index(section_ids(secs), v@.form[k]);
            }
            lemma_bars_before_corresponds(
                v@.sections,
                secs,
                v@.form,
                form@,
                form@.len() as int,
            );
            assert(total_bars(secs, form@) < usize::MAX);
            assert forall|s: int, b: int, l: int|
                0 <= s < secs.len() && 0 <= b < secs[s].bars.len() && 0 <= l
                    < secs[s].bars[b].layers.len() implies (#[trigger] secs[s].bars[b].layers[l]).track
                < tracks@.len() by {
                assert(section_corresponds(v@.sections[s], secs[s], ids));
                assert(bar_corresponds(v@.sections[s].bars[b], secs[s].bars[b], ids));
                assert(layer_corresponds(
                    v@.sections[s].bars[b].layers[l],
                    secs[s].bars[b].layers[l],
                    ids,
                ));
                lemma_first_id_index(ids, v@.sections[s].bars[b].layers[l].track);
                assert(ids.len() == tracks@.len());
            }
        }
        Ok(Tab::new_arc(v.meta, tracks, sections, form))
    }
}

} // verus!
