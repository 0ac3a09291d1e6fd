use rschord::{Accidental, Chromatic, Diatonic, MidiNote, Octave, Pitch, PitchClass, Tone};

#[test]
fn canonical_accidental_symbols_round_trip() {
    let symbols = ["\u{1d12b}", "\u{266d}", "\u{266e}", "\u{266f}", "\u{1d12a}"];
    for s in symbols {
        let a = Accidental::parse(s).unwrap();
        assert_eq!(a.name(), s);
    }
}

#[test]
fn ascii_shorthands_normalise_to_the_glyph() {
    assert_eq!(Accidental::parse("b"), Some(Accidental::flat()));
    assert_eq!(Accidental::parse("bb"), Some(Accidental::double_flat()));
    assert_eq!(Accidental::parse(""), Some(Accidental::natural()));
    assert_eq!(Accidental::parse("n"), Some(Accidental::natural()));
    assert_eq!(Accidental::parse("#"), Some(Accidental::sharp()));
    assert_eq!(Accidental::parse("s"), Some(Accidental::sharp()));
    assert_eq!(Accidental::parse("x"), Some(Accidental::double_sharp()));
    assert_eq!(Accidental::parse("##"), Some(Accidental::double_sharp()));
    assert_eq!(Accidental::parse("ss"), Some(Accidental::double_sharp()));
    assert_eq!(
        Accidental::parse("\u{266d}\u{266d}"),
        Some(Accidental::double_flat())
    );
    assert_eq!(
        Accidental::parse("\u{266f}\u{266f}"),
        Some(Accidental::double_sharp())
    );
    // shorthand does not round-trip to itself, only to the canonical glyph
    assert_eq!(Accidental::parse("b").unwrap().name(), "\u{266d}");
}

#[test]
fn unrecognised_accidentals_fail_uniformly() {
    assert_eq!(Accidental::parse("q"), None);
    assert_eq!(Accidental::parse("bs"), None);
    assert_eq!(Accidental::parse("bbb"), None);
    assert_eq!(Accidental::parse("sharp"), None);
}

#[test]
fn out_of_range_accidentals_format_as_unknown() {
    assert_eq!(Accidental::new(3).name(), "\u{25a1}");
    assert_eq!(Accidental::new(-7).name(), "\u{25a1}");
}

#[test]
fn diatonic_names_and_parsing() {
    assert_eq!(Diatonic::parse("C"), Some(Diatonic::C));
    assert_eq!(Diatonic::parse("g"), Some(Diatonic::G));
    assert_eq!(Diatonic::parse("H"), None);
    assert_eq!(Diatonic::parse("CD"), None);
    assert_eq!(Diatonic::parse(""), None);
    assert_eq!(Diatonic::A.name(), "A");
}

#[test]
fn chromatic_names_show_enharmonic_pairs() {
    assert_eq!(Chromatic::C.name(), "C");
    assert_eq!(Chromatic::CsDb.name(), "C\u{266f}/D\u{266d}");
    assert_eq!(Chromatic::AsBb.name(), "A\u{266f}/B\u{266d}");
}

#[test]
fn chromatic_parses_via_pitch_class_spelling() {
    assert_eq!(Chromatic::parse("C\u{266f}"), Some(Chromatic::CsDb));
    assert_eq!(Chromatic::parse("Db"), Some(Chromatic::CsDb));
    assert_eq!(Chromatic::parse("E"), Some(Chromatic::E));
    assert_eq!(Chromatic::parse("Fx"), Some(Chromatic::G));
    assert_eq!(Chromatic::parse("H"), None);
    assert_eq!(Chromatic::parse(""), None);
}

#[test]
fn pitch_class_text_round_trips() {
    let cs = PitchClass::new(Diatonic::C, Accidental::sharp());
    assert_eq!(cs.to_text(), "C\u{266f}");
    assert_eq!(PitchClass::parse("C\u{266f}"), Some(cs));
    assert_eq!(PitchClass::parse(&cs.to_text()), Some(cs));
    let dn = PitchClass::new(Diatonic::D, Accidental::natural());
    assert_eq!(dn.to_text(), "D\u{266e}");
    // the bare letter parses as a natural too
    assert_eq!(PitchClass::parse("D"), Some(dn));
}

#[test]
fn pitch_class_rejects_malformed_text() {
    assert_eq!(PitchClass::parse(""), None);
    assert_eq!(PitchClass::parse("X#"), None);
    assert_eq!(PitchClass::parse("Cq"), None);
    assert_eq!(PitchClass::parse("\u{266d}C"), None);
}

#[test]
fn octave_text_round_trips() {
    assert_eq!(Octave::new(4).to_text(), "4");
    assert_eq!(Octave::new(-3).to_text(), "-3");
    assert_eq!(Octave::new(0).to_text(), "0");
    assert_eq!(Octave::parse("4"), Some(Octave::new(4)));
    assert_eq!(Octave::parse("-3"), Some(Octave::new(-3)));
    assert_eq!(Octave::parse("+7"), Some(Octave::new(7)));
    assert_eq!(Octave::parse("007"), Some(Octave::new(7)));
}

#[test]
fn octave_rejects_malformed_or_huge_numerals() {
    assert_eq!(Octave::parse(""), None);
    assert_eq!(Octave::parse("-"), None);
    assert_eq!(Octave::parse("+"), None);
    assert_eq!(Octave::parse("4a"), None);
    assert_eq!(Octave::parse("--4"), None);
    assert_eq!(Octave::parse("99999999999999999999999999"), None);
    assert_eq!(Octave::parse("-99999999999999999999999999"), None);
    assert_eq!(Octave::parse("9223372036854775807"), Some(Octave::new(isize::MAX)));
    assert_eq!(Octave::parse("9223372036854775808"), None);
    assert_eq!(
        Octave::parse("-9223372036854775808"),
        Some(Octave::new(isize::MIN))
    );
    assert_eq!(Octave::parse("-9223372036854775809"), None);
}

#[test]
fn pitch_text_splits_at_the_first_digit_or_minus() {
    let cs4 = Pitch::new(
        PitchClass::new(Diatonic::C, Accidental::sharp()),
        Octave::new(4),
    );
    assert_eq!(Pitch::parse("C\u{266f}4"), Some(cs4));
    assert_eq!(cs4.to_text(), "C\u{266f}4");
    assert_eq!(Pitch::parse(&cs4.to_text()), Some(cs4));
    let a_neg1 = Pitch::new(
        PitchClass::new(Diatonic::A, Accidental::natural()),
        Octave::new(-1),
    );
    assert_eq!(Pitch::parse("A-1"), Some(a_neg1));
    assert_eq!(Pitch::parse("Db12"), Some(Pitch::new(
        PitchClass::new(Diatonic::D, Accidental::flat()),
        Octave::new(12),
    )));
}

#[test]
fn pitch_rejects_text_without_a_boundary_or_with_bad_parts() {
    assert_eq!(Pitch::parse("C\u{266f}"), None); // no octave at all
    assert_eq!(Pitch::parse(""), None);
    assert_eq!(Pitch::parse("4"), None); // empty pitch class
    assert_eq!(Pitch::parse("-4"), None);
    assert_eq!(Pitch::parse("C4x"), None); // trailing junk in the octave
    assert_eq!(Pitch::parse("C--4"), None);
    assert_eq!(Pitch::parse("Cq4"), None); // bad accidental
}

#[test]
fn tone_parses_as_the_canonical_spelling() {
    let t = Tone::parse("C\u{266f}4").unwrap();
    assert_eq!(t.chromatic, Chromatic::CsDb);
    assert_eq!(t.octave.numeric(), 4);
    // a sharp on B lands in the next octave
    let u = Tone::parse("B\u{266f}3").unwrap();
    assert_eq!(u.chromatic, Chromatic::C);
    assert_eq!(u.octave.numeric(), 4);
    // outside the MIDI byte range the conversion is refused, not truncated
    assert_eq!(Tone::parse("C99"), None);
    assert_eq!(Tone::parse("C-99"), None);
    assert_eq!(Tone::parse("junk"), None);
}

#[test]
fn tone_text_shows_the_enharmonic_pair() {
    let t = Tone::new(Chromatic::CsDb, Octave::new(4));
    assert_eq!(t.to_text(), "C\u{266f}/D\u{266d}4");
    let u = Tone::new(Chromatic::G, Octave::new(-2));
    assert_eq!(u.to_text(), "G-2");
}

#[test]
fn midi_note_text_round_trips() {
    assert_eq!(MidiNote::new(60).to_text(), "60");
    assert_eq!(MidiNote::new(-5).to_text(), "-5");
    assert_eq!(MidiNote::parse("60"), Some(MidiNote::new(60)));
    assert_eq!(MidiNote::parse("-128"), Some(MidiNote::new(-128)));
    assert_eq!(MidiNote::parse("127"), Some(MidiNote::new(127)));
    assert_eq!(MidiNote::parse("128"), None);
    assert_eq!(MidiNote::parse("-129"), None);
    assert_eq!(MidiNote::parse("60.5"), None);
    assert_eq!(MidiNote::parse(""), None);
}
