//! A verified model of a declarative song description and its resolution
//! into a linear performance timeline.
//!
//! The crate is organised leaves first: pitch-class arithmetic (semitones,
//! syllables, pitches, intervals, chords, scales), then the event entries a
//! track is made of, then tracks with mark-addressed slicing, then bar and
//! section templates, and finally the tab, whose construction expands a form
//! into a flat, ordered list of resolved bars.

pub mod semitones;
pub mod syllable;
pub mod pitch;
pub mod interval;
pub mod scale;
pub mod chord;
pub mod duration;
pub mod note;
pub mod meta;
pub mod entry;
pub mod util;
pub mod slice;
pub mod track;
pub mod bar;
pub mod section;
pub mod tab;
pub mod proto;
pub mod parse;
