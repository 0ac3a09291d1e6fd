use rschord::{Accidental, Diatonic, Duration, Note, Octave, Pitch, PitchClass, Subdivision};
use std::cmp::Ordering;

#[test]
fn named_subdivisions_alias_the_same_exponents() {
    assert_eq!(Subdivision::whole_note(), Subdivision::semibreve());
    assert_eq!(Subdivision::half_note(), Subdivision::minim());
    assert_eq!(Subdivision::quarter_note(), Subdivision::crotchet());
    assert_eq!(Subdivision::x8th_note(), Subdivision::quaver());
    assert_eq!(Subdivision::x16th_note(), Subdivision::semiquaver());
    assert_eq!(Subdivision::x32nd_note(), Subdivision::demisemiquaver());
    assert_eq!(Subdivision::x64th_note(), Subdivision::hemidemisemiquaver());
    assert_eq!(
        Subdivision::x128th_note(),
        Subdivision::semihemidemisemiquaver()
    );
    // the two names of exponent 7 are one value, not two members
    assert_eq!(
        Subdivision::quasihemidemisemiquaver(),
        Subdivision::semihemidemisemiquaver()
    );
    assert_eq!(Subdivision::new(3).exponent(), 3);
}

#[test]
fn nth_counts_subdivisions_per_whole_note() {
    assert_eq!(Subdivision::whole_note().nth(), 1);
    assert_eq!(Subdivision::half_note().nth(), 2);
    assert_eq!(Subdivision::quarter_note().nth(), 4);
    assert_eq!(Subdivision::x128th_note().nth(), 128);
    assert_eq!(Subdivision::new(10).nth(), 1024);
}

#[test]
fn subdivision_order_is_descending_in_exponent() {
    assert!(Subdivision::whole_note() > Subdivision::half_note());
    assert!(Subdivision::quaver() < Subdivision::crotchet());
    assert_eq!(
        Subdivision::minim().partial_cmp(&Subdivision::half_note()),
        Some(Ordering::Equal)
    );
}

#[test]
fn subdivision_glyphs_round_trip() {
    let glyphs = [
        "\u{1d15d}", "\u{1d15e}", "\u{1d15f}", "\u{1d160}", "\u{1d161}", "\u{1d162}",
        "\u{1d163}", "\u{1d164}",
    ];
    for (e, g) in glyphs.iter().enumerate() {
        let s = Subdivision::parse(g).unwrap();
        assert_eq!(s.exponent(), e);
        assert_eq!(s.name(), *g);
    }
    assert_eq!(Subdivision::new(9).name(), "\u{25a1}");
    assert_eq!(Subdivision::parse("q"), None);
    assert_eq!(Subdivision::parse(""), None);
    assert_eq!(Subdivision::parse("\u{1d15d}\u{1d15d}"), None);
}

#[test]
fn one_half_note_equals_two_quarter_notes() {
    let half = Duration::new(1, Subdivision::half_note());
    let quarters = Duration::new(2, Subdivision::quarter_note());
    assert!(half == quarters);
    assert_eq!(half.cmp(&quarters), Ordering::Equal);
    let eighths = Duration::new(4, Subdivision::x8th_note());
    assert!(half == eighths);
}

#[test]
fn durations_compare_across_units() {
    let half = Duration::new(1, Subdivision::half_note());
    let quarter = Duration::new(1, Subdivision::quarter_note());
    let three_quavers = Duration::new(3, Subdivision::quaver());
    assert!(quarter < half);
    assert!(half > quarter);
    assert!(three_quavers < half); // 3/8 < 1/2
    assert!(three_quavers > quarter); // 3/8 > 1/4
    assert_eq!(half.cmp(&quarter), Ordering::Greater);
    assert_eq!(quarter.cmp(&half), Ordering::Less);
    let whole = Subdivision::whole_note().to_duration();
    assert_eq!(whole, Duration::new(1, Subdivision::whole_note()));
    assert!(whole > half);
}

#[test]
fn durations_with_equal_units_compare_by_length() {
    let two = Duration::new(2, Subdivision::crotchet());
    let three = Duration::new(3, Subdivision::crotchet());
    assert!(two < three);
    assert!(two == Duration::new(2, Subdivision::quarter_note()));
}

#[test]
fn extreme_subdivision_exponents_compare_without_overflow() {
    let quarter = Duration::new(1, Subdivision::quarter_note());
    let dust = Duration::new(u64::MAX as usize, Subdivision::new(100));
    assert!(quarter > dust);
    assert!(dust < quarter);
    let zero_coarse = Duration::new(0, Subdivision::whole_note());
    let zero_fine = Duration::new(0, Subdivision::new(90));
    assert!(zero_coarse == zero_fine);
    let huge = Duration::new(usize::MAX, Subdivision::new(64));
    let whole = Duration::new(1, Subdivision::whole_note());
    assert!(huge < whole); // usize::MAX / 2^64 < 1
}

#[test]
fn notes_pair_a_pitch_with_a_duration() {
    let p = Pitch::new(
        PitchClass::new(Diatonic::E, Accidental::flat()),
        Octave::new(3),
    );
    let d = Duration::new(1, Subdivision::minim());
    let n = Note::new(p, d);
    assert_eq!(n.pitch, p);
    assert_eq!(n.value, d);
    // note equality sees duration by value
    let m = Note::new(p, Duration::new(2, Subdivision::crotchet()));
    assert_eq!(n, m);
}
