use vstd::prelude::*;

use crate::duration::{Duration, Unit};
use crate::pitch::Key;
use crate::scale::Scale;

verus! {

/// A time signature: how many beats to a bar, and the unit of one beat.
#[derive(Copy, Clone, Debug, PartialEq, Eq, Structural)]
pub struct Signature {
    pub beat_unit: Unit,
    pub bar_beats: u8,
}

impl Signature {
    pub fn new(beat_unit: Unit, bar_beats: u8) -> (r: Signature)
        ensures
            r == (Signature { beat_unit, bar_beats }),
    {
        Signature { beat_unit, bar_beats }
    }

    /// The length of one bar on the 192-ticks-per-whole grid.
    pub fn bar_ticks(&self) -> (r: u32)
        ensures
            r as int == self.bar_beats * crate::duration::spec_unit_ticks(self.beat_unit),
    {
        (self.bar_beats as u32) * Duration::unit_ticks(self.beat_unit)
    }
}

/// A tempo, as one of the conventional names or an explicit
/// beats-per-minute count.
#[derive(Copy, Clone, Debug, PartialEq, Eq, Structural)]
pub enum Tempo {
    Largo,
    Lento,
    Adagio,
    Andante,
    Moderato,
    Allegretto,
    Allegro,
    Vivace,
    Presto,
    Bpm(u16),
}

/// The metadata of a tab: key, scale, time signature and tempo.
#[derive(Copy, Clone, Debug, PartialEq, Eq, Structural)]
pub struct TabMeta {
    pub key: Key,
    pub scale: Scale,
    pub signature: Signature,
    pub tempo: Tempo,
}

impl TabMeta {
    pub open spec fn wf(self) -> bool {
        self.key.wf()
    }

    pub fn new(key: Key, scale: Scale, signature: Signature, tempo: Tempo) -> (r: TabMeta)
        ensures
            r == (TabMeta { key, scale, signature, tempo }),
    {
        TabMeta { key, scale, signature, tempo }
    }
}

/// A context mutation inside a track: overrides the running duration, key,
/// scale, signature or tempo from this entry on. Zero-length in time.
#[derive(Copy, Clone, Debug, PartialEq, Eq, Structural)]
pub enum MetaEntry {
    Duration(Duration),
    Key(Key),
    Scale(Scale),
    Signature(Signature),
    Tempo(Tempo),
}

impl MetaEntry {
    pub open spec fn wf(self) -> bool {
        match self {
            MetaEntry::Key(k) => k.wf(),
            _ => true,
        }
    }
}

} // verus!
