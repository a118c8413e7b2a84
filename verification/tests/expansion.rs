use notation_model::bar::{Bar, BarLayer};
use notation_model::duration::{Duration, Unit};
use notation_model::entry::{ModelEntry, ProtoEntry};
use notation_model::meta::{TabMeta, Signature, Tempo};
use notation_model::parse::ParseError;
use notation_model::pitch::{Key, Pitch};
use notation_model::proto::{ProtoBar, ProtoLayer, ProtoSection, ProtoTab, ProtoTrack};
use notation_model::scale::Scale;
use notation_model::section::{Form, Section, SectionKind};
use notation_model::slice::{LayerSlice, Slice, SliceBegin, SliceEnd};
use notation_model::tab::Tab;
use notation_model::track::{Track, TrackKind};

fn meta() -> TabMeta {
    TabMeta::new(
        Key::new(Pitch::new(4, 0)),
        Scale::Minor,
        Signature::new(Unit::Quarter, 3),
        Tempo::Bpm(129),
    )
}

fn word(text: &str) -> ProtoEntry {
    ProtoEntry::Word(String::from(text), Duration::Simple(Unit::Quarter))
}

/// One layer playing entries 0..count of the vocal track.
fn layer(count: usize) -> BarLayer {
    BarLayer::new(
        0,
        vec![LayerSlice::new(
            Slice::new(SliceBegin::Index(0), SliceEnd::Count(count)),
            1,
        )],
    )
}

fn empty_bar() -> Bar {
    Bar::new(vec![layer(1)])
}

fn section(id: &str, kind: SectionKind, n_bars: usize) -> Section {
    let mut bars = Vec::new();
    for _ in 0..n_bars {
        bars.push(empty_bar());
    }
    Section::new(String::from(id), kind, bars)
}

fn vocal_track() -> Track {
    Track::new(
        String::from("vocal"),
        TrackKind::Vocal,
        ModelEntry::new_entries(vec![word("la"), word("li")]),
    )
}

/// Form `[A, B, A]` with section A of 2 bars and B of 1 bar.
fn aba_tab() -> std::sync::Arc<Tab> {
    let sections = vec![
        section("A", SectionKind::Verse, 2),
        section("B", SectionKind::Chorus, 1),
    ];
    Tab::new_arc(
        meta(),
        vec![vocal_track()],
        sections,
        Form::new(vec![0, 1, 0]),
    )
}

#[test]
fn aba_form_counts_rounds_ordinals_and_bars() {
    let tab = aba_tab();
    assert_eq!(tab.bars.len(), 5);
    // bar_ordinal runs 1..=5 across the whole tab.
    for (i, bar) in tab.bars.iter().enumerate() {
        assert_eq!(bar.bar_ordinal, i + 1);
    }
    // The occurrences: A (bars 0-1), B (bar 2), A again (bars 3-4).
    let rounds: Vec<usize> = tab.bars.iter().map(|b| b.section_round).collect();
    assert_eq!(rounds, vec![1, 1, 1, 2, 2]);
    let ordinals: Vec<usize> = tab.bars.iter().map(|b| b.section_ordinal).collect();
    assert_eq!(ordinals, vec![1, 1, 2, 3, 3]);
    let bar_indices: Vec<usize> = tab.bars.iter().map(|b| b.bar_index).collect();
    assert_eq!(bar_indices, vec![0, 1, 0, 0, 1]);
    let sections: Vec<usize> = tab.bars.iter().map(|b| b.section).collect();
    assert_eq!(sections, vec![0, 0, 1, 0, 0]);
}

#[test]
fn empty_form_yields_no_bars() {
    let tab = Tab::new_arc(
        meta(),
        vec![vocal_track()],
        vec![section("A", SectionKind::Verse, 2)],
        Form::new(vec![]),
    );
    assert_eq!(tab.bars.len(), 0);
}

#[test]
fn get_track_of_kind_finds_the_first_match() {
    let tab = aba_tab();
    let vocal = tab.get_track_of_kind(TrackKind::Vocal);
    assert!(vocal.is_some());
    assert_eq!(vocal.unwrap().id, "vocal");
    assert!(tab.get_track_of_kind(TrackKind::Drums).is_none());
}

#[test]
fn tab_bar_resolves_track_entries() {
    let tab = aba_tab();
    let bar = tab.bars[0];
    let entries = bar.get_track_entries(&tab, &String::from("vocal"));
    assert_eq!(entries.len(), 1);
    assert_eq!(entries[0].value, word("la"));
    // A track id with no layer in this bar plays nothing.
    let silent = bar.get_track_entries(&tab, &String::from("guitar"));
    assert_eq!(silent.len(), 0);
}

#[test]
fn layer_repeats_its_slices() {
    let track = vocal_track();
    let repeated = BarLayer::new(
        0,
        vec![LayerSlice::new(
            Slice::new(SliceBegin::Index(0), SliceEnd::Count(2)),
            2,
        )],
    );
    let entries = repeated.get_entries(&track);
    assert_eq!(entries.len(), 4);
    assert_eq!(entries[0].value, word("la"));
    assert_eq!(entries[1].value, word("li"));
    assert_eq!(entries[2].value, word("la"));
    assert_eq!(entries[3].value, word("li"));
}

fn proto_bar(layer_track: &str) -> ProtoBar {
    let proto_layer = ProtoLayer::new(
        String::from(layer_track),
        vec![LayerSlice::new(
            Slice::new(SliceBegin::Index(0), SliceEnd::Count(1)),
            1,
        )],
    );
    ProtoBar::new(vec![proto_layer])
}

fn proto_aba(form: Vec<&str>, layer_track: &str) -> ProtoTab {
    let track = ProtoTrack::new(
        String::from("vocal"),
        TrackKind::Vocal,
        vec![word("la"), word("li")],
    );
    let section_a = ProtoSection::new(
        String::from("A"),
        SectionKind::Verse,
        vec![proto_bar(layer_track), proto_bar(layer_track)],
    );
    let section_b = ProtoSection::new(
        String::from("B"),
        SectionKind::Chorus,
        vec![proto_bar(layer_track)],
    );
    ProtoTab::new(
        meta(),
        vec![track],
        vec![section_a, section_b],
        form.into_iter().map(String::from).collect(),
    )
}

#[test]
fn parse_resolves_the_whole_pipeline() {
    let tab = Tab::try_parse_arc(proto_aba(vec!["A", "B", "A"], "vocal")).expect("valid input");
    assert_eq!(tab.bars.len(), 5);
    for (i, bar) in tab.bars.iter().enumerate() {
        assert_eq!(bar.bar_ordinal, i + 1);
    }
    assert_eq!(tab.tracks.len(), 1);
    assert_eq!(tab.sections.len(), 2);
    assert_eq!(tab.form.sections, vec![0, 1, 0]);
    let entries = tab.bars[0].get_track_entries(&tab, &String::from("vocal"));
    assert_eq!(entries.len(), 1);
    assert_eq!(entries[0].value, word("la"));
}

#[test]
fn parse_fails_on_missing_section_with_no_tab() {
    let r = Tab::try_parse_arc(proto_aba(vec!["A", "missing"], "vocal"));
    match r {
        Err(ParseError::SectionNotFound(id)) => assert_eq!(id, "missing"),
        _ => panic!("expected SectionNotFound"),
    }
}

#[test]
fn parse_fails_on_missing_track() {
    let r = Tab::try_parse_arc(proto_aba(vec!["A"], "guitar"));
    match r {
        Err(ParseError::TrackNotFound(id)) => assert_eq!(id, "guitar"),
        _ => panic!("expected TrackNotFound"),
    }
}

#[test]
fn parse_resolves_mark_addressed_layers() {
    let track = ProtoTrack::new(
        String::from("vocal"),
        TrackKind::Vocal,
        vec![
            ProtoEntry::Mark(String::from("a")),
            word("la"),
            word("li"),
            ProtoEntry::Mark(String::from("b")),
            word("lo"),
        ],
    );
    let layer = ProtoLayer::new(
        String::from("vocal"),
        vec![LayerSlice::new(
            Slice::new(
                SliceBegin::Mark(String::from("a")),
                SliceEnd::Mark(String::from("b")),
            ),
            1,
        )],
    );
    let section = ProtoSection::new(
        String::from("A"),
        SectionKind::Verse,
        vec![ProtoBar::new(vec![layer])],
    );
    let tab = Tab::try_parse_arc(ProtoTab::new(
        meta(),
        vec![track],
        vec![section],
        vec![String::from("A")],
    ))
    .expect("valid input");
    let entries = tab.bars[0].get_track_entries(&tab, &String::from("vocal"));
    assert_eq!(entries.len(), 2);
    assert_eq!(entries[0].value, word("la"));
    assert_eq!(entries[1].value, word("li"));
    assert_eq!(entries[0].index, 1);
    assert_eq!(entries[1].index, 2);
}

#[test]
fn parse_reports_the_missing_id() {
    let err = Tab::try_parse_arc(proto_aba(vec!["A", "zz"], "vocal")).unwrap_err();
    assert_eq!(err.missing_id(), "zz");
}
