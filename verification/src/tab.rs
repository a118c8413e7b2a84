use vstd::prelude::*;

use std::sync::Arc;

use crate::bar::{layer_entries, BarLayerV};
use crate::entry::ModelEntry;
use crate::meta::TabMeta;
use crate::section::{Form, Section, SectionV};
use crate::track::{entry_views, Track, TrackKind, TrackV};

verus! {

/// One resolved bar instance of the expanded timeline. It addresses its
/// section and bar template by position in the owning tab, rather than by
/// an owning reference, so the tab stays free of ownership cycles.
#[derive(Copy, Clone, Debug, PartialEq, Eq, Structural)]
pub struct TabBar {
    /// The position of this bar's section in the tab's section list.
    pub section: usize,
    /// How many times this section's id has occurred in the form up to
    /// and including this occurrence; 1-based.
    pub section_round: usize,
    /// The 1-based position of this occurrence among all section
    /// occurrences of the form.
    pub section_ordinal: usize,
    /// The 0-based position of the bar template within its section.
    pub bar_index: usize,
    /// The 1-based absolute position of this bar across the whole tab.
    pub bar_ordinal: usize,
}

/// The values of a list of sections.
pub open spec fn section_views(s: Seq<Section>) -> Seq<SectionV> {
    s.map_values(|x: Section| x@)
}

/// The values of a list of tracks.
pub open spec fn track_views(s: Seq<Track>) -> Seq<TrackV> {
    s.map_values(|x: Track| x@)
}

/// Every form entry names an existing section.
pub open spec fn form_wf(sections: Seq<SectionV>, form: Seq<usize>) -> bool {
    forall|k: int| 0 <= k < form.len() ==> (#[trigger] form[k]) < sections.len()
}

/// Every layer of every bar template points at one of the tab's tracks.
pub open spec fn layers_in_range(sections: Seq<SectionV>, n_tracks: int) -> bool {
    forall|s: int, b: int, l: int|
        0 <= s < sections.len() && 0 <= b < sections[s].bars.len() && 0 <= l
            < sections[s].bars[b].layers.len() ==> (#[trigger] sections[s].bars[b].layers[l]).track
            < n_tracks
}

/// How many of the first `k` form occurrences carry the given section id.
pub open spec fn count_id_before(
    sections: Seq<SectionV>,
    form: Seq<usize>,
    id: Seq<char>,
    k: int,
) -> int
    decreases k,
{
    if k <= 0 {
        0
    } else {
        count_id_before(sections, form, id, k - 1) + if sections[form[k - 1] as int].id == id {
            1int
        } else {
            0int
        }
    }
}

/// The 1-based round of the occurrence at position `k`: one more than the
/// number of earlier occurrences of the same section id.
pub open spec fn section_round_at(sections: Seq<SectionV>, form: Seq<usize>, k: int) -> int {
    count_id_before(sections, form, sections[form[k] as int].id, k) + 1
}

/// How many bars the first `k` form occurrences contribute.
pub open spec fn bars_before(sections: Seq<SectionV>, form: Seq<usize>, k: int) -> int
    decreases k,
{
    if k <= 0 {
        0
    } else {
        bars_before(sections, form, k - 1) + sections[form[k - 1] as int].bars.len()
    }
}

/// How many bars the whole form expands to.
pub open spec fn total_bars(sections: Seq<SectionV>, form: Seq<usize>) -> int {
    bars_before(sections, form, form.len() as int)
}

/// The resolved bar for occurrence `k` of the form, bar template `b` of
/// its section.
pub open spec fn mk_tab_bar(sections: Seq<SectionV>, form: Seq<usize>, k: int, b: int) -> TabBar {
    TabBar {
        section: form[k],
        section_round: section_round_at(sections, form, k) as usize,
        section_ordinal: (k + 1) as usize,
        bar_index: b as usize,
        bar_ordinal: (bars_before(sections, form, k) + b + 1) as usize,
    }
}

/// The resolved bars of occurrence `k` of the form, in template order.
pub open spec fn section_tab_bars(sections: Seq<SectionV>, form: Seq<usize>, k: int) -> Seq<
    TabBar,
> {
    Seq::new(sections[form[k] as int].bars.len(), |b: int| mk_tab_bar(sections, form, k, b))
}

/// The resolved bars of the first `k` form occurrences, flattened in form
/// order.
pub open spec fn tab_bars_prefix(sections: Seq<SectionV>, form: Seq<usize>, k: int) -> Seq<TabBar>
    decreases k,
{
    if k <= 0 {
        Seq::empty()
    } else {
        tab_bars_prefix(sections, form, k - 1) + section_tab_bars(sections, form, k - 1)
    }
}

/// The whole expanded timeline: the flat, ordered list of resolved bars
/// the form stands for.
pub open spec fn tab_bars_spec(sections: Seq<SectionV>, form: Seq<usize>) -> Seq<TabBar> {
    tab_bars_prefix(sections, form, form.len() as int)
}

/// The bar count of a prefix never shrinks as the prefix grows.
pub proof fn lemma_bars_before_mono(sections: Seq<SectionV>, form: Seq<usize>, k1: int, k2: int)
    requires
        k1 <= k2,
    ensures
        bars_before(sections, form, k1) <= bars_before(sections, form, k2),
    decreases k2 - k1,
{
    if k1 < k2 {
        lemma_bars_before_mono(sections, form, k1, k2 - 1);
    }
}

/// A prefix of the expansion holds exactly the bars its occurrences
/// contribute.
pub proof fn lemma_tab_bars_prefix_len(sections: Seq<SectionV>, form: Seq<usize>, k: int)
    ensures
        tab_bars_prefix(sections, form, k).len() == if k <= 0 {
            0
        } else {
            bars_before(sections, form, k)
        },
    decreases k,
{
    if k > 0 {
        lemma_tab_bars_prefix_len(sections, form, k - 1);
    }
}

/// Bar ordinals are strictly increasing by exactly one, starting at one:
/// the bar at position `p` of the expansion carries ordinal `p + 1`.
pub proof fn lemma_prefix_bar_ordinals(sections: Seq<SectionV>, form: Seq<usize>, k: int)
    requires
        bars_before(sections, form, k) <= usize::MAX,
    ensures
        forall|p: int|
            0 <= p < tab_bars_prefix(sections, form, k).len() ==> (#[trigger] tab_bars_prefix(
                sections,
                form,
                k,
            )[p]).bar_ordinal == p + 1,
    decreases k,
{
    if k > 0 {
        lemma_bars_before_mono(sections, form, k - 1, k);
        lemma_prefix_bar_ordinals(sections, form, k - 1);
        lemma_tab_bars_prefix_len(sections, form, k - 1);
        let prefix = tab_bars_prefix(sections, form, k);
        let prev = tab_bars_prefix(sections, form, k - 1);
        let sect = section_tab_bars(sections, form, k - 1);
        assert forall|p: int| 0 <= p < prefix.len() implies (#[trigger] prefix[p]).bar_ordinal == p
            + 1 by {
            if p < prev.len() {
                assert(prefix[p] == prev[p]);
            } else {
                let b = p - prev.len();
                assert(prefix[p] == sect[b]);
                assert(sect[b] == mk_tab_bar(sections, form, k - 1, b));
                assert(bars_before(sections, form, k - 1) + b + 1 <= bars_before(
                    sections,
                    form,
                    k,
                ));
            }
        }
    }
}

/// The expanded timeline: the tab bar at position `p` carries ordinal
/// `p + 1`, for every valid `p`.
pub proof fn lemma_tab_bar_ordinals(sections: Seq<SectionV>, form: Seq<usize>)
    requires
        total_bars(sections, form) <= usize::MAX,
    ensures
        forall|p: int|
            0 <= p < tab_bars_spec(sections, form).len() ==> (#[trigger] tab_bars_spec(
                sections,
                form,
            )[p]).bar_ordinal == p + 1,
{
    lemma_prefix_bar_ordinals(sections, form, form.len() as int);
}

/// The expansion puts occurrence `k`'s bar template `b` at flat position
/// `bars_before(k) + b`, as the resolved bar `mk_tab_bar(k, b)`: in
/// particular, that bar carries `section_ordinal == k + 1`, the round of
/// its section id at occurrence `k`, and `bar_index == b`.
pub proof fn lemma_tab_bars_spec_index(
    sections: Seq<SectionV>,
    form: Seq<usize>,
    k: int,
    b: int,
)
    requires
        0 <= k < form.len(),
        0 <= b < sections[form[k] as int].bars.len(),
    ensures
        tab_bars_spec(sections, form)[bars_before(sections, form, k) + b] == mk_tab_bar(
            sections,
            form,
            k,
            b,
        ),
{
    lemma_prefix_index(sections, form, k, b, form.len() as int);
}

/// Every prefix long enough to contain occurrence `k` places its bars at
/// the same flat positions.
proof fn lemma_prefix_index(sections: Seq<SectionV>, form: Seq<usize>, k: int, b: int, upto: int)
    requires
        0 <= k < upto <= form.len(),
        0 <= b < sections[form[k] as int].bars.len(),
    ensures
        tab_bars_prefix(sections, form, upto)[bars_before(sections, form, k) + b] == mk_tab_bar(
            sections,
            form,
            k,
            b,
        ),
    decreases upto,
{
    lemma_tab_bars_prefix_len(sections, form, upto - 1);
    lemma_bars_before_mono(sections, form, 0, k);
    let idx = bars_before(sections, form, k) + b;
    assert(idx >= 0);
    if upto == k + 1 {
        lemma_tab_bars_prefix_len(sections, form, k);
        assert(tab_bars_prefix(sections, form, k).len() == bars_before(sections, form, k));
        assert(tab_bars_prefix(sections, form, upto) == tab_bars_prefix(sections, form, k)
            + section_tab_bars(sections, form, k));
        assert(tab_bars_prefix(sections, form, upto)[idx] == section_tab_bars(
            sections,
            form,
            k,
        )[b]);
    } else {
        lemma_prefix_index(sections, form, k, b, upto - 1);
        lemma_bars_before_mono(sections, form, k + 1, upto - 1);
        assert(bars_before(sections, form, k + 1) == bars_before(sections, form, k)
            + sections[form[k] as int].bars.len());
        assert(idx < bars_before(sections, form, upto - 1));
        assert(tab_bars_prefix(sections, form, upto) == tab_bars_prefix(sections, form, upto - 1)
            + section_tab_bars(sections, form, upto - 1));
        assert((tab_bars_prefix(sections, form, upto - 1) + section_tab_bars(
            sections,
            form,
            upto - 1,
        ))[idx] == tab_bars_prefix(sections, form, upto - 1)[idx]);
    }
}

/// In a well formed tab, the bar at position `p` of `bars` carries
/// `bar_ordinal == p + 1`: ordinals increase by exactly one, starting at
/// one, across the whole tab.
pub proof fn lemma_tab_bar_ordinal(tab: &Tab)
    requires
        tab.wf(),
    ensures
        forall|p: int|
            0 <= p < tab.bars@.len() ==> (#[trigger] tab.bars@[p]).bar_ordinal == p + 1,
{
    lemma_tab_bar_ordinals(section_views(tab.sections@), tab.form@);
}

impl Section {
    /// Emit the resolved bar instances for one occurrence of this section:
    /// one `TabBar` per bar template, in order, all carrying the given
    /// round and ordinal, with absolute ordinals counted from
    /// `first_bar_ordinal`.
    pub fn new_tab_bars(
        &self,
        section_index: usize,
        section_round: usize,
        section_ordinal: usize,
        first_bar_ordinal: usize,
    ) -> (r: Vec<TabBar>)
        requires
            first_bar_ordinal + self.bars@.len() <= usize::MAX + 1,
        ensures
            r@.len() == self@.bars.len(),
            forall|b: int|
                0 <= b < r@.len() ==> r@[b] == (TabBar {
                    section: section_index,
                    section_round,
                    section_ordinal,
                    bar_index: b as usize,
                    bar_ordinal: (first_bar_ordinal + b) as usize,
                }),
    {
        proof {
            assert(self@.bars.len() == self.bars@.len());
        }
        let mut r: Vec<TabBar> = Vec::new();
        let mut b: usize = 0;
        while b < self.bars.len()
            invariant
                0 <= b <= self.bars@.len(),
                first_bar_ordinal + self.bars@.len() <= usize::MAX + 1,
                r@.len() == b,
                forall|x: int|
                    0 <= x < b ==> r@[x] == (TabBar {
                        section: section_index,
                        section_round,
                        section_ordinal,
                        bar_index: x as usize,
                        bar_ordinal: (first_bar_ordinal + x) as usize,
                    }),
            decreases self.bars@.len() - b,
        {
            r.push(
                TabBar {
                    section: section_index,
                    section_round,
                    section_ordinal,
                    bar_index: b,
                    bar_ordinal: first_bar_ordinal + b,
                },
            );
            b = b + 1;
        }
        r
    }
}

/// The position of the first track with the given kind.
pub open spec fn first_track_of_kind(tracks: Seq<TrackV>, kind: TrackKind) -> Option<int>
    decreases tracks.len(),
{
    if tracks.len() == 0 {
        None
    } else if tracks[0].kind == kind {
        Some(0)
    } else {
        match first_track_of_kind(tracks.drop_first(), kind) {
            Some(i) => Some(i + 1),
            None => None,
        }
    }
}

/// The position of the first layer of a bar whose track carries the given
/// id.
pub open spec fn first_layer_with_track_id(
    layers: Seq<BarLayerV>,
    tracks: Seq<TrackV>,
    id: Seq<char>,
) -> Option<int>
    decreases layers.len(),
{
    if layers.len() == 0 {
        None
    } else if layers[0].track < tracks.len() && tracks[layers[0].track as int].id == id {
        Some(0)
    } else {
        match first_layer_with_track_id(layers.drop_first(), tracks, id) {
            Some(i) => Some(i + 1),
            None => None,
        }
    }
}

/// The finished object: metadata, tracks, sections, form, and the derived,
/// flat, ordered list of resolved bars. The root owner of everything the
/// bars refer to; immutable once constructed, so it can be shared
/// read-only by any number of concurrent readers.
#[derive(Debug)]
pub struct Tab {
    pub meta: TabMeta,
    pub tracks: Vec<Track>,
    pub sections: Vec<Section>,
    pub form: Form,
    pub bars: Vec<TabBar>,
}

impl Tab {
    /// Well formed: tracks index their own entries, the form and every
    /// layer point into the registries, the expansion fits the machine,
    /// and the bar list is exactly the expansion of the form.
    pub open spec fn wf(self) -> bool {
        &&& forall|t: int|
            0 <= t < self.tracks@.len() ==> (#[trigger] self.tracks@[t]).wf()
        &&& form_wf(section_views(self.sections@), self.form@)
        &&& layers_in_range(section_views(self.sections@), self.tracks@.len() as int)
        &&& total_bars(section_views(self.sections@), self.form@) <= usize::MAX
        &&& self.bars@ == tab_bars_spec(section_views(self.sections@), self.form@)
    }

    /// Build the finished tab: expand the form into the flat bar list and
    /// hand the whole object out behind a shared reference. All-or-nothing
    /// and free of I/O; the result is never mutated afterwards.
    pub fn new_arc(meta: TabMeta, tracks: Vec<Track>, sections: Vec<Section>, form: Form) -> (r:
        Arc<Tab>)
        requires
            forall|t: int| 0 <= t < tracks@.len() ==> (#[trigger] tracks@[t]).wf(),
            form_wf(section_views(sections@), form@),
            layers_in_range(section_views(sections@), tracks@.len() as int),
            total_bars(section_views(sections@), form@) < usize::MAX,
        ensures
            r.meta == meta,
            r.tracks == tracks,
            r.sections == sections,
            r.form == form,
            r.bars@ == tab_bars_spec(section_views(sections@), form@),
            r.wf(),
    {
        let bars = Tab::new_tab_bars(&sections, &form);
        Arc::new(Tab { meta, tracks, sections, form, bars })
    }

    /// Expand the form: for each section occurrence in form order, count
    /// its round among earlier occurrences of the same id, then emit one
    /// resolved bar per template, threading the three counters.
    fn new_tab_bars(sections: &Vec<Section>, form: &Form) -> (bars: Vec<TabBar>)
        requires
            form_wf(section_views(sections@), form@),
            total_bars(section_views(sections@), form@) < usize::MAX,
        ensures
            bars@ == tab_bars_spec(section_views(sections@), form@),
    {
        let ghost secs = section_views(sections@);
        proof {
            assert(secs.len() == sections@.len());
        }
        let mut bars: Vec<TabBar> = Vec::new();
        let mut k: usize = 0;
        while k < form.sections.len()
            invariant
                0 <= k <= form@.len(),
                secs == section_views(sections@),
                secs.len() == sections@.len(),
                form_wf(secs, form@),
                total_bars(secs, form@) < usize::MAX,
                bars@ == tab_bars_prefix(secs, form@, k as int),
                bars@.len() == bars_before(secs, form@, k as int),
            decreases form@.len() - k,
        {
            let sidx = form.sections[k];
            let mut round: usize = 1;
            let mut j: usize = 0;
            while j < k
                invariant
                    0 <= j <= k,
                    k < form@.len(),
                    form@.len() <= usize::MAX,
                    secs == section_views(sections@),
                    secs.len() == sections@.len(),
                    form_wf(secs, form@),
                    sidx == form@[k as int],
                    round == count_id_before(secs, form@, secs[sidx as int].id, j as int) + 1,
                    round <= j + 1,
                decreases k - j,
            {
                if sections[form.sections[j]].id == sections[sidx].id {
                    round = round + 1;
                }
                j = j + 1;
            }
            let section = &sections[sidx];
            proof {
                lemma_tab_bars_prefix_len(secs, form@, k as int);
                lemma_bars_before_mono(secs, form@, k as int, k + 1);
                lemma_bars_before_mono(secs, form@, k + 1, form@.len() as int);
                assert(section@ == secs[sidx as int]);
                assert(section@.bars.len() == section.bars@.len());
            }
            let first_ord: usize = bars.len() + 1;
            let mut sec_bars = section.new_tab_bars(sidx, round, k + 1, first_ord);
            let ghost sec_bars_v = sec_bars@;
            bars.append(&mut sec_bars);
            proof {
                assert forall|b: int| 0 <= b < sec_bars_v.len() implies sec_bars_v[b]
                    == mk_tab_bar(secs, form@, k as int, b) by {
                    assert(sec_bars_v[b].bar_ordinal == first_ord + b);
                }
                assert(sec_bars_v =~= section_tab_bars(secs, form@, k as int));
                assert(bars@ =~= tab_bars_prefix(secs, form@, k + 1));
            }
            k = k + 1;
        }
        bars
    }

    /// The first track of the given kind, if the tab has one.
    pub fn get_track_of_kind(&self, kind: TrackKind) -> (r: Option<&Track>)
        ensures
            match r {
                Some(t) => {
                    &&& first_track_of_kind(track_views(self.tracks@), kind) matches Some(i)
                    &&& 0 <= i < self.tracks@.len()
                    &&& *t == self.tracks@[i]
                },
                None => first_track_of_kind(track_views(self.tracks@), kind) is None,
            },
    {
        let ghost tracks_v = track_views(self.tracks@);
        proof {
            assert(tracks_v.skip(0) =~= tracks_v);
        }
        let mut i: usize = 0;
        while i < self.tracks.len()
            invariant
                0 <= i <= self.tracks@.len(),
                tracks_v == track_views(self.tracks@),
                tracks_v.len() == self.tracks@.len(),
                first_track_of_kind(tracks_v, kind) == match first_track_of_kind(
                    tracks_v.skip(i as int),
                    kind,
                ) {
                    Some(p) => Some(p + i),
                    None => None::<int>,
                },
            decreases self.tracks@.len() - i,
        {
            proof {
                assert(tracks_v.skip(i as int)[0] == tracks_v[i as int]);
                assert(tracks_v.skip(i as int).drop_first() =~= tracks_v.skip(i + 1));
            }
            if self.tracks[i].kind == kind {
                return Some(&self.tracks[i]);
            }
            i = i + 1;
        }
        proof {
            assert(tracks_v.skip(i as int).len() == 0);
        }
        None
    }
}

impl TabBar {
    /// This resolved bar points into the given tab.
    pub open spec fn valid_for(self, tab: Tab) -> bool {
        &&& self.section < tab.sections@.len()
        &&& self.bar_index < section_views(tab.sections@)[self.section as int].bars.len()
    }

    /// What the named track plays in this bar: the bar template's layer
    /// for that track, materialized against the track's entry list; no
    /// layer means the track is silent here and yields no entries.
    pub fn get_track_entries(&self, tab: &Tab, track_id: &String) -> (r: Vec<ModelEntry>)
        requires
            tab.wf(),
            self.valid_for(*tab),
        ensures
            ({
                let secs = section_views(tab.sections@);
                let tracks_v = track_views(tab.tracks@);
                let layers = secs[self.section as int].bars[self.bar_index as int].layers;
                match first_layer_with_track_id(layers, tracks_v, track_id@) {
                    Some(l) => entry_views(r@) == layer_entries(
                        tracks_v[layers[l].track as int].entries,
                        layers[l].slices,
                    ),
                    None => entry_views(r@) == Seq::<crate::entry::ModelEntryV>::empty(),
                }
            }),
    {
        let ghost secs = section_views(tab.sections@);
        let ghost tracks_v = track_views(tab.tracks@);
        let section = &tab.sections[self.section];
        let bar = &section.bars[self.bar_index];
        let ghost layers = secs[self.section as int].bars[self.bar_index as int].layers;
        proof {
            assert(section@ == secs[self.section as int]);
            assert(bar@ == section@.bars[self.bar_index as int]);
            assert(layers == bar@.layers);
            assert(layers.skip(0) =~= layers);
        }
        let mut i: usize = 0;
        while i < bar.layers.len()
            invariant
                0 <= i <= bar.layers@.len(),
                tab.wf(),
                self.valid_for(*tab),
                secs == section_views(tab.sections@),
                tracks_v == track_views(tab.tracks@),
                tracks_v.len() == tab.tracks@.len(),
                *bar == tab.sections@[self.section as int].bars@[self.bar_index as int],
                layers == bar@.layers,
                layers.len() == bar.layers@.len(),
                first_layer_with_track_id(layers, tracks_v, track_id@) == match
                    first_layer_with_track_id(layers.skip(i as int), tracks_v, track_id@) {
                    Some(p) => Some(p + i),
                    None => None::<int>,
                },
            decreases bar.layers@.len() - i,
        {
            proof {
                assert(layers.skip(i as int)[0] == layers[i as int]);
                assert(layers.skip(i as int).drop_first() =~= layers.skip(i + 1));
                assert(layers[i as int] == bar.layers@[i as int]@);
                assert(layers[i as int].track < tab.tracks@.len());
            }
            let layer = &bar.layers[i];
            if layer.track < tab.tracks.len() {
                let track = &tab.tracks[layer.track];
                let matches_id = track.id == *track_id;
                if matches_id {
                    proof {
                        assert(track@ == tracks_v[layer.track as int]);
                    }
                    return layer.get_entries(track);
                }
            }
            i = i + 1;
        }
        proof {
            assert(layers.skip(i as int).len() == 0);
        }
        Vec::new()
    }
}

} // verus!
