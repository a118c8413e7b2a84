use notation_model::chord::Chord;
use notation_model::duration::{Duration, Unit};
use notation_model::interval::{Interval, IntervalQuality};
use notation_model::pitch::{Key, Pitch};
use notation_model::scale::Scale;
use notation_model::semitones::Semitones;
use notation_model::syllable::Syllable;

#[test]
fn normalize_non_negative_agrees_with_remainder() {
    for n in [0i32, 1, 5, 11, 12, 13, 24, 100, 2_000_000_000] {
        assert_eq!(Semitones(n).normalize(), n % 12);
    }
}

#[test]
fn normalize_negative_wraps_up() {
    for n in [-1i32, -5, -11, -12, -13, -24, -100, -2_000_000_000] {
        assert_eq!(Semitones(n).normalize(), ((n % 12) + 12) % 12);
    }
    assert_eq!(Semitones(-1).normalize(), 11);
    assert_eq!(Semitones(-12).normalize(), 0);
    assert_eq!(Semitones(-13).normalize(), 11);
}

#[test]
fn normalize_extremes() {
    assert_eq!(Semitones(i32::MAX).normalize(), 7);
    assert_eq!(Semitones(i32::MIN).normalize(), 4);
}

#[test]
fn semitones_arithmetic() {
    assert_eq!(Semitones(5).plus(Semitones(9)).0, 14);
    assert_eq!(Semitones(5).minus(Semitones(9)).0, -4);
}

#[test]
fn syllable_table_is_the_twelve_degrees() {
    let degrees = [
        Syllable::Do,
        Syllable::Di,
        Syllable::Re,
        Syllable::Ri,
        Syllable::Mi,
        Syllable::Fa,
        Syllable::Fi,
        Syllable::So,
        Syllable::Si,
        Syllable::La,
        Syllable::Li,
        Syllable::Ti,
    ];
    for (i, d) in degrees.iter().enumerate() {
        assert_eq!(Semitones::from(*d).0, i as i32);
        assert_eq!(Syllable::from(Semitones(i as i32)), *d);
    }
    assert_eq!(Syllable::from(Semitones(-1)), Syllable::Ti);
    assert_eq!(Syllable::from(Semitones(12)), Syllable::Do);
    assert_eq!(Syllable::from(Semitones(19)), Syllable::So);
}

#[test]
fn syllable_roundtrip_is_idempotent() {
    for s in [-25i32, -13, -12, -1, 0, 1, 5, 11, 12, 30, 100] {
        let once = Syllable::from(Semitones(s));
        let twice = Syllable::from(Semitones::from(once));
        assert_eq!(twice, once);
    }
}

#[test]
fn pitch_semitones_roundtrip() {
    let p = Pitch::from_semitones(Semitones(13));
    assert_eq!(p.class, 1);
    assert_eq!(p.octave, 1);
    assert_eq!(p.to_semitones().0, 13);
    let q = Pitch::from_semitones(Semitones(-1));
    assert_eq!(q.class, 11);
    assert_eq!(q.octave, -1);
    assert_eq!(q.to_semitones().0, -1);
    let z = Pitch::from_semitones(Semitones(0));
    assert_eq!(z.class, 0);
    assert_eq!(z.octave, 0);
}

#[test]
fn scale_calc_pitch_wraps_octaves() {
    // E minor: tonic E (class 4); La is 9 semitones up, landing on C#
    // one octave higher.
    let key = Key::new(Pitch::new(4, 0));
    let p = Scale::Minor.calc_pitch(key, Syllable::La);
    assert_eq!(p.class, 1);
    assert_eq!(p.octave, 1);
    // Do stays on the tonic itself.
    let t = Scale::Major.calc_pitch(key, Syllable::Do);
    assert_eq!(t.class, 4);
    assert_eq!(t.octave, 0);
}

#[test]
fn scale_calc_syllable_inverts_calc_pitch() {
    let key = Key::new(Pitch::new(4, 0));
    for s in [Syllable::Do, Syllable::Ri, Syllable::So, Syllable::Ti] {
        let p = Scale::Minor.calc_pitch(key, s);
        assert_eq!(Scale::Minor.calc_syllable(key, p), s);
    }
    // A pitch below the tonic wraps into the upper degrees.
    let below = Pitch::new(3, 0);
    assert_eq!(Scale::Major.calc_syllable(key, below), Syllable::Ti);
}

#[test]
fn scale_degrees_and_membership() {
    let major = Scale::Major.get_syllables();
    assert_eq!(
        major,
        vec![
            Syllable::Do,
            Syllable::Re,
            Syllable::Mi,
            Syllable::Fa,
            Syllable::So,
            Syllable::La,
            Syllable::Ti
        ]
    );
    let minor = Scale::Minor.get_syllables();
    assert_eq!(minor[0], Syllable::La);
    assert!(Scale::Major.is_in_scale(Syllable::Fa));
    assert!(!Scale::Major.is_in_scale(Syllable::Fi));
    assert!(Scale::Lydian.is_in_scale(Syllable::Fa));
}

#[test]
fn interval_of_follows_the_span_table() {
    let fifth = Interval::of(Syllable::Do, Syllable::So);
    assert_eq!(fifth.semitones, 7);
    assert_eq!(fifth.quality, IntervalQuality::Perfect);
    let fourth = Interval::of(Syllable::So, Syllable::Do);
    assert_eq!(fourth.semitones, 5);
    assert_eq!(fourth.quality, IntervalQuality::Perfect);
    let tritone = Interval::of(Syllable::Do, Syllable::Fi);
    assert_eq!(tritone.semitones, 6);
    assert_eq!(tritone.quality, IntervalQuality::Tritone);
    let minor_third = Interval::of(Syllable::La, Syllable::Do);
    assert_eq!(minor_third.semitones, 3);
    assert_eq!(minor_third.quality, IntervalQuality::Minor);
    let unison = Interval::of(Syllable::Mi, Syllable::Mi);
    assert_eq!(unison.semitones, 0);
    assert_eq!(unison.quality, IntervalQuality::Perfect);
}

#[test]
fn chord_resolves_intervals_from_root() {
    let major_third = Interval::of(Syllable::Do, Syllable::Mi);
    let perfect_fifth = Interval::of(Syllable::Do, Syllable::So);
    let chord = Chord::try_new(Syllable::Do, vec![major_third, perfect_fifth], None)
        .expect("distinct intervals make a valid chord");
    assert_eq!(chord.intervals_from_root(), vec![Syllable::Mi, Syllable::So]);
    // The same triad on La lands on Di and Mi.
    let on_la = Chord::try_new(Syllable::La, vec![major_third, perfect_fifth], None).unwrap();
    assert_eq!(on_la.intervals_from_root(), vec![Syllable::Di, Syllable::Mi]);
}

#[test]
fn chord_rejects_duplicate_syllables() {
    let third = Interval::of(Syllable::Do, Syllable::Mi);
    assert!(Chord::try_new(Syllable::Do, vec![third, third], None).is_none());
}

#[test]
fn chord_rejects_mislabelled_quality() {
    let wrong = Interval { quality: IntervalQuality::Major, semitones: 7 };
    assert!(Chord::try_new(Syllable::Do, vec![wrong], None).is_none());
}

#[test]
fn duration_ticks_are_exact() {
    assert_eq!(Duration::Zero.ticks(), 0);
    assert_eq!(Duration::Simple(Unit::Whole).ticks(), 192);
    assert_eq!(Duration::Simple(Unit::Quarter).ticks(), 48);
    assert_eq!(Duration::Dotted(Unit::Half).ticks(), 144);
    assert_eq!(Duration::Triplet(Unit::Quarter).ticks(), 32);
    assert_eq!(Duration::DottedTriplet(Unit::Eighth).ticks(), 32);
    assert_eq!(Duration::Dotted(Unit::ThirtySecondth).ticks(), 9);
    assert!(Duration::Zero.is_zero());
    assert!(!Duration::Simple(Unit::Half).is_zero());
}
