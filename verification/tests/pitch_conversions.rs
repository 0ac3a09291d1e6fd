use rschord::{Accidental, Chromatic, Diatonic, MidiNote, Octave, Pitch, PitchClass, Tone};
use std::cmp::Ordering;

#[test]
fn wrapping_is_euclidean() {
    assert_eq!(Chromatic::wrapping_chr(0), Chromatic::C);
    assert_eq!(Chromatic::wrapping_chr(11), Chromatic::B);
    assert_eq!(Chromatic::wrapping_chr(12), Chromatic::C);
    assert_eq!(Chromatic::wrapping_chr(13), Chromatic::CsDb);
    assert_eq!(Chromatic::wrapping_chr(-1), Chromatic::B);
    assert_eq!(Chromatic::wrapping_chr(-12), Chromatic::C);
    assert_eq!(Chromatic::wrapping_chr(-13), Chromatic::B);
}

#[test]
fn wrapping_has_period_twelve() {
    let samples: [isize; 7] = [-25, -13, -5, 0, 7, 12, 100];
    for n in samples {
        assert_eq!(Chromatic::wrapping_chr(n), Chromatic::wrapping_chr(n + 12));
    }
}

#[test]
fn checked_chr_always_succeeds_for_chromatic() {
    assert_eq!(Chromatic::checked_chr(-5), Some(Chromatic::wrapping_chr(-5)));
    assert_eq!(Chromatic::checked_chr(25), Some(Chromatic::CsDb));
}

#[test]
fn diatonic_offsets_are_uneven() {
    let expected: [(Diatonic, isize); 7] = [
        (Diatonic::C, 0),
        (Diatonic::D, 2),
        (Diatonic::E, 4),
        (Diatonic::F, 5),
        (Diatonic::G, 7),
        (Diatonic::A, 9),
        (Diatonic::B, 11),
    ];
    for (d, ord) in expected {
        assert_eq!(d.ord(), ord);
        assert_eq!(d.chromatic().ord(), ord);
    }
}

#[test]
fn diatonic_lookup_is_exact_no_modulo() {
    assert_eq!(Diatonic::checked_chr(2), Some(Diatonic::D));
    assert_eq!(Diatonic::checked_chr(1), None);
    assert_eq!(Diatonic::checked_chr(12), None);
    assert_eq!(Diatonic::checked_chr(14), None);
    assert_eq!(Diatonic::checked_chr(-12), None);
}

#[test]
fn black_keys_have_no_letter() {
    assert_eq!(Chromatic::CsDb.try_diatonic(), None);
    assert_eq!(Chromatic::DsEb.try_diatonic(), None);
    assert_eq!(Chromatic::FsGb.try_diatonic(), None);
    assert_eq!(Chromatic::GsAb.try_diatonic(), None);
    assert_eq!(Chromatic::AsBb.try_diatonic(), None);
    assert_eq!(Chromatic::C.try_diatonic(), Some(Diatonic::C));
    assert_eq!(Chromatic::B.try_diatonic(), Some(Diatonic::B));
}

#[test]
fn sharpen_flatten_wrap_in_both_directions() {
    assert_eq!(Chromatic::C.sharpen(1), Chromatic::CsDb);
    assert_eq!(Chromatic::C.sharpen(-1), Chromatic::B);
    assert_eq!(Chromatic::C.flatten(1), Chromatic::B);
    assert_eq!(Chromatic::B.sharpen(2), Chromatic::CsDb);
    assert_eq!(Chromatic::C.sharpen(-25), Chromatic::B);
    assert_eq!(Chromatic::C.flatten(-25), Chromatic::CsDb);
    assert_eq!(Diatonic::B.sharpen(1), Chromatic::C);
    assert_eq!(Diatonic::C.flatten(1), Chromatic::B);
}

#[test]
fn pitch_class_resolves_with_accidental() {
    let cs = PitchClass::new(Diatonic::C, Accidental::sharp());
    assert_eq!(cs.chromatic(), Chromatic::CsDb);
    let db = PitchClass::new(Diatonic::D, Accidental::flat());
    assert_eq!(db.chromatic(), Chromatic::CsDb);
    let bx = PitchClass::new(Diatonic::B, Accidental::double_sharp());
    assert_eq!(bx.chromatic(), Chromatic::CsDb);
    let cbb = PitchClass::new(Diatonic::C, Accidental::double_flat());
    assert_eq!(cbb.chromatic(), Chromatic::AsBb);
    let wide = PitchClass::new(Diatonic::C, Accidental::new(-15));
    assert_eq!(wide.chromatic(), Chromatic::A);
}

#[test]
fn enharmonic_is_not_equality() {
    let cs = PitchClass::new(Diatonic::C, Accidental::sharp());
    let db = PitchClass::new(Diatonic::D, Accidental::flat());
    assert!(cs.enharmonic(&db));
    assert!(cs != db);
    let c = PitchClass::new(Diatonic::C, Accidental::natural());
    assert!(!cs.enharmonic(&c));
}

#[test]
fn middle_c_is_sixty() {
    assert_eq!(MidiNote::middle_c().as_i8(), 60);
    assert_eq!(Pitch::middle_c().to_midi_note().as_i8(), 60);
    assert_eq!(Tone::middle_c().to_midi_note().as_i8(), 60);
    assert_eq!(MidiNote::stuttgart().as_i8(), 69);
    assert_eq!(Pitch::stuttgart().to_midi_note().as_i8(), 69);
}

#[test]
fn midi_boundaries_map_to_expected_tones() {
    let low = MidiNote::new(0).to_tone();
    assert_eq!(low.chromatic, Chromatic::C);
    assert_eq!(low.octave.numeric(), -1);
    let high = MidiNote::new(127).to_tone();
    assert_eq!(high.chromatic, Chromatic::G);
    assert_eq!(high.octave.numeric(), 9);
}

#[test]
fn negative_midi_values_floor_into_negative_octaves() {
    let t = MidiNote::new(-1).to_tone();
    assert_eq!(t.chromatic, Chromatic::B);
    assert_eq!(t.octave.numeric(), -2);
    // -128 == 12 * (-11) + 4: the residue stays non-negative
    let u = MidiNote::new(-128).to_tone();
    assert_eq!(u.chromatic, Chromatic::E);
    assert_eq!(u.octave.numeric(), -12);
}

#[test]
fn tone_midi_round_trip_over_whole_range() {
    for oct in -1..=9isize {
        for ord in 0..12isize {
            if ord + 12 * (oct + 1) > 127 {
                continue; // above G9 the byte range ends
            }
            let t = Tone::new(Chromatic::wrapping_chr(ord), Octave::new(oct));
            let m = t.to_midi_note();
            assert_eq!(m.to_tone(), t);
        }
    }
}

#[test]
fn midi_round_trip_over_all_values() {
    for v in i8::MIN..=i8::MAX {
        let t = MidiNote::new(v).to_tone();
        assert_eq!(t.to_midi_note().as_i8(), v);
    }
}

#[test]
fn pitch_conversions_follow_the_midi_formula() {
    let cs4 = Pitch::new(
        PitchClass::new(Diatonic::C, Accidental::sharp()),
        Octave::new(4),
    );
    assert_eq!(cs4.to_midi_note().as_i8(), 61);
    let t = cs4.to_tone();
    assert_eq!(t.chromatic, Chromatic::CsDb);
    assert_eq!(t.octave.numeric(), 4);
    // a sharp on B carries into the next octave's tone
    let bs3 = Pitch::new(
        PitchClass::new(Diatonic::B, Accidental::sharp()),
        Octave::new(3),
    );
    assert_eq!(bs3.to_midi_note().as_i8(), 60);
    let u = bs3.to_tone();
    assert_eq!(u.chromatic, Chromatic::C);
    assert_eq!(u.octave.numeric(), 4);
}

#[test]
fn pitch_ordering_is_the_midi_quotient() {
    let cs4 = Pitch::new(
        PitchClass::new(Diatonic::C, Accidental::sharp()),
        Octave::new(4),
    );
    let db4 = Pitch::new(
        PitchClass::new(Diatonic::D, Accidental::flat()),
        Octave::new(4),
    );
    // structurally different ...
    assert!(cs4 != db4);
    // ... but MIDI-equal, so order-equal and enharmonic
    assert_eq!(cs4.to_midi_note(), db4.to_midi_note());
    assert_eq!(cs4.partial_cmp(&db4), Some(Ordering::Equal));
    assert!(cs4.enharmonic(&db4));
    let db5 = Pitch::new(
        PitchClass::new(Diatonic::D, Accidental::flat()),
        Octave::new(5),
    );
    assert!(!cs4.enharmonic(&db5));
    assert!(cs4 < db5);
    let b3 = Pitch::new(
        PitchClass::new(Diatonic::B, Accidental::natural()),
        Octave::new(3),
    );
    assert!(b3 < cs4);
    assert!(db5 > cs4);
}

#[test]
fn tone_ordering_is_the_midi_quotient() {
    let c4 = Tone::new(Chromatic::C, Octave::new(4));
    let b3 = Tone::new(Chromatic::B, Octave::new(3));
    assert!(b3 < c4);
    assert!(c4 > b3);
    assert_eq!(c4.partial_cmp(&c4), Some(Ordering::Equal));
}

#[test]
fn accidental_accessors_and_transposition() {
    assert_eq!(Accidental::sharp().pitch_shift(), 1);
    assert_eq!(Accidental::double_flat().pitch_shift(), -2);
    assert_eq!(Accidental::new(5).pitch_shift(), 5);
    assert_eq!(Accidental::flat().raised(2), Accidental::sharp());
    assert_eq!(Accidental::sharp().lowered(2), Accidental::flat());
    assert_eq!(Diatonic::C.with(Accidental::double_sharp()), Chromatic::D);
}

#[test]
fn from_conversions_mirror_the_accessors() {
    assert_eq!(Accidental::from(-2), Accidental::double_flat());
    assert_eq!(isize::from(Accidental::sharp()), 1);
    assert_eq!(Octave::from(5), Octave::new(5));
    assert_eq!(isize::from(Octave::new(-2)), -2);
    assert_eq!(MidiNote::from(60), MidiNote::middle_c());
    assert_eq!(i8::from(MidiNote::new(7)), 7);
    assert_eq!(Chromatic::from(Diatonic::E), Chromatic::E);
    assert_eq!(isize::from(Diatonic::B), 11);
    assert_eq!(isize::from(Chromatic::FsGb), 6);
    let pc = PitchClass::new(Diatonic::D, Accidental::flat());
    assert_eq!(Chromatic::from(pc), Chromatic::CsDb);
    let (d, a) = <(Diatonic, Accidental)>::from(pc);
    assert_eq!(PitchClass::from((d, a)), pc);
    let p = Pitch::new(pc, Octave::new(2));
    let (pc2, o2) = <(PitchClass, Octave)>::from(p);
    assert_eq!(Pitch::from((pc2, o2)), p);
    let t = Tone::new(Chromatic::G, Octave::new(3));
    let (c3, o3) = <(Chromatic, Octave)>::from(t);
    assert_eq!(Tone::from((c3, o3)), t);
}

#[test]
fn octave_accessors() {
    assert_eq!(Octave::new(4).numeric(), 4);
    assert_eq!(Octave::new(-2).numeric(), -2);
    assert!(Octave::new(1) < Octave::new(3));
}
