use vstd::prelude::*;

use crate::entry::{ModelEntry, ModelEntryV};
use crate::slice::{LayerSlice, LayerSliceV};
use crate::track::{entry_views, slice_entries, Track};

verus! {

/// A sequence repeated end to end `n` times.
pub open spec fn repeat_entries(s: Seq<ModelEntryV>, n: nat) -> Seq<ModelEntryV>
    decreases n,
{
    if n == 0 {
        Seq::empty()
    } else {
        repeat_entries(s, (n - 1) as nat) + s
    }
}

/// The entries the first `k` instructions of a layer materialize to: each
/// slice resolved against the track's entry list, repeated its own number
/// of times, in instruction order.
pub open spec fn layer_entries_prefix(
    entries: Seq<ModelEntryV>,
    slices: Seq<LayerSliceV>,
    k: int,
) -> Seq<ModelEntryV>
    decreases k,
{
    if k <= 0 {
        Seq::empty()
    } else {
        layer_entries_prefix(entries, slices, k - 1) + repeat_entries(
            slice_entries(entries, slices[k - 1].slice.begin, slices[k - 1].slice.end),
            slices[k - 1].repeat as nat,
        )
    }
}

/// The entries one occurrence of a whole layer materializes to.
pub open spec fn layer_entries(entries: Seq<ModelEntryV>, slices: Seq<LayerSliceV>) -> Seq<
    ModelEntryV,
> {
    layer_entries_prefix(entries, slices, slices.len() as int)
}

/// What one track plays in one bar template: the track, by its position
/// in the tab's track list, and an ordered list of slice instructions.
#[derive(Debug, PartialEq, Eq)]
pub struct BarLayer {
    pub track: usize,
    pub slices: Vec<LayerSlice>,
}

/// The mathematical value of a bar layer.
#[verifier::ext_equal]
pub struct BarLayerV {
    pub track: usize,
    pub slices: Seq<LayerSliceV>,
}

impl View for BarLayer {
    type V = BarLayerV;

    open spec fn view(&self) -> BarLayerV {
        BarLayerV { track: self.track, slices: self.slices@.map_values(|s: LayerSlice| s@) }
    }
}

impl BarLayer {
    pub fn new(track: usize, slices: Vec<LayerSlice>) -> (r: BarLayer)
        ensures
            r == (BarLayer { track, slices }),
    {
        BarLayer { track, slices }
    }

    /// Materialize one occurrence of the layer against its track: resolve
    /// each slice in order and emit the selected entries, repeated the
    /// instruction's own number of times.
    pub fn get_entries(&self, track: &Track) -> (r: Vec<ModelEntry>)
        ensures
            entry_views(r@) == layer_entries(track@.entries, self@.slices),
    {
        let mut r: Vec<ModelEntry> = Vec::new();
        let mut k: usize = 0;
        while k < self.slices.len()
            invariant
                0 <= k <= self.slices@.len(),
                self@.slices.len() == self.slices@.len(),
                entry_views(r@) == layer_entries_prefix(track@.entries, self@.slices, k as int),
            decreases self.slices@.len() - k,
        {
            let part = track.get_entries(&self.slices[k].slice.begin, &self.slices[k].slice.end);
            let ghost part_v = entry_views(part@);
            let ghost before = entry_views(r@);
            proof {
                assert(part_v == slice_entries(
                    track@.entries,
                    self@.slices[k as int].slice.begin,
                    self@.slices[k as int].slice.end,
                ));
            }
            let mut rep: usize = 0;
            while rep < self.slices[k].repeat
                invariant
                    0 <= rep <= self.slices@[k as int].repeat,
                    self@.slices.len() == self.slices@.len(),
                    0 <= k < self.slices@.len(),
                    part_v == entry_views(part@),
                    self@.slices[k as int].repeat == self.slices@[k as int].repeat,
                    entry_views(r@) == before + repeat_entries(part_v, rep as nat),
                decreases self.slices@[k as int].repeat - rep,
            {
                let mut j: usize = 0;
                while j < part.len()
                    invariant
                        0 <= j <= part@.len(),
                        part_v == entry_views(part@),
                        entry_views(r@) == before + repeat_entries(part_v, rep as nat)
                            + part_v.take(j as int),
                    decreases part@.len() - j,
                {
                    r.push(part[j].clone());
                    proof {
                        let prev = before + repeat_entries(part_v, rep as nat) + part_v.take(
                            j as int,
                        );
                        let next = before + repeat_entries(part_v, rep as nat) + part_v.take(
                            j + 1,
                        );
                        assert(r@[r@.len() - 1]@ == part_v[j as int]);
                        assert(entry_views(r@).len() == prev.len() + 1);
                        assert(next.len() == prev.len() + 1);
                        assert forall|x: int| 0 <= x < next.len() implies entry_views(r@)[x]
                            == next[x] by {
                            if x < prev.len() {
                                assert(entry_views(r@)[x] == prev[x]);
                                assert(next[x] == prev[x]);
                            } else {
                                assert(next[x] == part_v[j as int]);
                            }
                        }
                        assert(entry_views(r@) =~= next);
                    }
                    j = j + 1;
                }
                proof {
                    assert(part_v.take(part@.len() as int) =~= part_v);
                    assert(entry_views(r@) =~= before + repeat_entries(part_v, (rep + 1) as nat));
                }
                rep = rep + 1;
            }
            proof {
                assert(entry_views(r@) == layer_entries_prefix(
                    track@.entries,
                    self@.slices,
                    k + 1,
                ));
            }
            k = k + 1;
        }
        r
    }
}

/// One bar template: at most one layer per track; a track without a layer
/// is silent for this bar.
#[derive(Debug, PartialEq, Eq)]
pub struct Bar {
    pub layers: Vec<BarLayer>,
}

/// The mathematical value of a bar template.
#[verifier::ext_equal]
pub struct BarV {
    pub layers: Seq<BarLayerV>,
}

impl View for Bar {
    type V = BarV;

    open spec fn view(&self) -> BarV {
        BarV { layers: self.layers@.map_values(|l: BarLayer| l@) }
    }
}

/// The position of the first layer that plays the given track.
pub open spec fn first_layer_of_track(layers: Seq<BarLayerV>, track: usize) -> Option<int>
    decreases layers.len(),
{
    if layers.len() == 0 {
        None
    } else if layers[0].track == track {
        Some(0)
    } else {
        match first_layer_of_track(layers.drop_first(), track) {
            Some(i) => Some(i + 1),
            None => None,
        }
    }
}

impl Bar {
    pub fn new(layers: Vec<BarLayer>) -> (r: Bar)
        ensures
            r == (Bar { layers }),
    {
        Bar { layers }
    }

    /// The bar's layer for the given track, if the track plays in this bar.
    pub fn get_layer_of_track(&self, track: usize) -> (r: Option<&BarLayer>)
        ensures
            match r {
                Some(l) => {
                    &&& first_layer_of_track(self@.layers, track) matches Some(i)
                    &&& 0 <= i < self.layers@.len()
                    &&& *l == self.layers@[first_layer_of_track(self@.layers, track)->Some_0]
                },
                None => first_layer_of_track(self@.layers, track) is None,
            },
    {
        let mut i: usize = 0;
        proof {
            assert(self@.layers.skip(0) =~= self@.layers);
        }
        while i < self.layers.len()
            invariant
                0 <= i <= self.layers@.len(),
                self@.layers.len() == self.layers@.len(),
                forall|j: int| 0 <= j < i ==> (#[trigger] self@.layers[j]).track != track,
                first_layer_of_track(self@.layers, track) == match first_layer_of_track(
                    self@.layers.skip(i as int),
                    track,
                ) {
                    Some(p) => Some(p + i),
                    None => None::<int>,
                },
            decreases self.layers@.len() - i,
        {
            if self.layers[i].track == track {
                proof {
                    assert(self@.layers.skip(i as int)[0] == self@.layers[i as int]);
                }
                return Some(&self.layers[i]);
            }
            proof {
                assert(self@.layers.skip(i as int).drop_first() =~= self@.layers.skip(i + 1));
                assert(self@.layers.skip(i as int)[0] == self@.layers[i as int]);
            }
            i = i + 1;
        }
        proof {
            assert(self@.layers.skip(i as int).len() == 0);
        }
        None
    }
}

} // verus!
