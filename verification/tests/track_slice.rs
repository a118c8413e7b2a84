use notation_model::duration::{Duration, Unit};
use notation_model::entry::{ModelEntry, ProtoEntry};
use notation_model::meta::Signature;
use notation_model::slice::{SliceBegin, SliceEnd};
use notation_model::track::{Track, TrackKind};

fn word(text: &str) -> ProtoEntry {
    ProtoEntry::Word(String::from(text), Duration::Simple(Unit::Quarter))
}

/// A track holding `[Mark(x), e0, e1, Mark(y), e2]`.
fn marked_track() -> Track {
    let entries = vec![
        ProtoEntry::Mark(String::from("x")),
        word("e0"),
        word("e1"),
        ProtoEntry::Mark(String::from("y")),
        word("e2"),
    ];
    Track::new(
        String::from("lyrics"),
        TrackKind::Lyrics,
        ModelEntry::new_entries(entries),
    )
}

#[test]
fn new_entries_carry_their_indices() {
    let track = marked_track();
    assert_eq!(track.entries.len(), 5);
    for (i, e) in track.entries.iter().enumerate() {
        assert_eq!(e.index, i);
    }
    assert_eq!(track.entries[1].value, word("e0"));
}

#[test]
fn index_of_mark_scans_forward_only() {
    let track = marked_track();
    assert_eq!(track.index_of_mark(0, &String::from("x")), Some(0));
    assert_eq!(track.index_of_mark(0, &String::from("y")), Some(3));
    assert_eq!(track.index_of_mark(1, &String::from("x")), None);
    assert_eq!(track.index_of_mark(4, &String::from("y")), None);
    assert_eq!(track.index_of_mark(0, &String::from("missing")), None);
    assert_eq!(track.index_of_mark(9, &String::from("x")), None);
}

#[test]
fn slice_between_marks_excludes_both_marks() {
    let track = marked_track();
    let begin = SliceBegin::Mark(String::from("x"));
    let end = SliceEnd::Mark(String::from("y"));
    assert_eq!(track.resolve_slice(&begin, &end), (1, 2));
    let entries = track.get_entries(&begin, &end);
    assert_eq!(entries.len(), 2);
    assert_eq!(entries[0].index, 1);
    assert_eq!(entries[0].value, word("e0"));
    assert_eq!(entries[1].index, 2);
    assert_eq!(entries[1].value, word("e1"));
}

#[test]
fn slice_by_index_and_count_ignores_marks() {
    let track = marked_track();
    let begin = SliceBegin::Index(1);
    let end = SliceEnd::Count(2);
    assert_eq!(track.resolve_slice(&begin, &end), (1, 2));
    let entries = track.get_entries(&begin, &end);
    assert_eq!(entries.len(), 2);
    assert_eq!(entries[0].value, word("e0"));
    assert_eq!(entries[1].value, word("e1"));
}

#[test]
fn slice_from_missing_mark_is_empty_not_an_error() {
    let track = marked_track();
    let begin = SliceBegin::Mark(String::from("missing"));
    let end = SliceEnd::Count(3);
    assert_eq!(track.resolve_slice(&begin, &end), (0, 0));
    assert_eq!(track.get_entries(&begin, &end).len(), 0);
}

#[test]
fn slice_from_mark_with_count_starts_after_the_mark() {
    let track = marked_track();
    let begin = SliceBegin::Mark(String::from("y"));
    let end = SliceEnd::Count(1);
    assert_eq!(track.resolve_slice(&begin, &end), (4, 1));
    let entries = track.get_entries(&begin, &end);
    assert_eq!(entries.len(), 1);
    assert_eq!(entries[0].value, word("e2"));
}

#[test]
fn slice_from_index_to_mark_drops_one_before_the_mark() {
    let track = marked_track();
    let begin = SliceBegin::Index(1);
    let end = SliceEnd::Mark(String::from("y"));
    assert_eq!(track.resolve_slice(&begin, &end), (1, 1));
    let entries = track.get_entries(&begin, &end);
    assert_eq!(entries.len(), 1);
    assert_eq!(entries[0].value, word("e0"));
}

#[test]
fn slice_from_index_to_absent_mark_is_empty() {
    let track = marked_track();
    let begin = SliceBegin::Index(2);
    let end = SliceEnd::Mark(String::from("zz"));
    assert_eq!(track.resolve_slice(&begin, &end), (2, 0));
    assert_eq!(track.get_entries(&begin, &end).len(), 0);
}

#[test]
fn slice_past_the_end_is_clipped() {
    let track = marked_track();
    assert_eq!(
        track
            .get_entries(&SliceBegin::Index(4), &SliceEnd::Count(10))
            .len(),
        1
    );
    assert_eq!(
        track
            .get_entries(&SliceBegin::Index(9), &SliceEnd::Count(2))
            .len(),
        0
    );
}

#[test]
fn duplicate_marks_first_match_wins() {
    let entries = vec![
        ProtoEntry::Mark(String::from("m")),
        word("a"),
        ProtoEntry::Mark(String::from("m")),
        word("b"),
    ];
    let track = Track::new(
        String::from("t"),
        TrackKind::Vocal,
        ModelEntry::new_entries(entries),
    );
    assert_eq!(track.index_of_mark(0, &String::from("m")), Some(0));
    assert_eq!(track.index_of_mark(1, &String::from("m")), Some(2));
}

#[test]
fn signature_bar_ticks() {
    let three_four = Signature::new(Unit::Quarter, 3);
    assert_eq!(three_four.bar_ticks(), 144);
    let four_four = Signature::new(Unit::Quarter, 4);
    assert_eq!(four_four.bar_ticks(), 192);
}
