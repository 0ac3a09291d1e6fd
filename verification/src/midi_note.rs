//! MIDI note numbers: the standard integer pitch numbering, 60 = middle C.

use vstd::prelude::*;
use vstd::arithmetic::div_mod::{
    lemma_hoist_over_denominator, lemma_mod_multiples_vanish, lemma_small_mod,
};
use crate::chromatic::{chromatic_from_ord, Chromatic};
use crate::numeral::{int_text, int_text_of, int_text_value, parse_int_in};
use crate::octave::Octave;
use crate::pitch::{midi_of_pitch, Pitch};
use crate::tone::{midi_of_tone, Tone};

verus! {

/// A MIDI note number, held in a signed byte. The playable MIDI range is
/// 0..=127, middle C (octave 4, chromatic C) being 60; the type itself does
/// not restrict the value. Conversions from pitches and tones take the
/// MIDI formula `chromatic + 12 * (octave + 1)` and, rather than silently
/// truncating it into the byte, require the result to fit.
#[derive(Clone, Copy, Debug, Eq, Ord, PartialEq, PartialOrd, Structural)]
pub struct MidiNote(pub i8);

/// The tone a MIDI value denotes: its Euclidean residue modulo 12 names the
/// chromatic class, and its floored quotient, less one, the octave — so
/// negative MIDI values map to octaves below -1, never to a negative
/// residue.
pub open spec fn tone_of_midi(m: int) -> Tone {
    Tone { chromatic: chromatic_from_ord(m % 12), octave: Octave((m / 12 - 1) as isize) }
}

/// The MIDI note denoted by a piece of text: a signed decimal numeral that
/// fits in a signed byte.
pub open spec fn midi_of_text(s: Seq<char>) -> Option<MidiNote> {
    match int_text_value(s) {
        Some(v) => if i8::MIN <= v <= i8::MAX {
            Some(MidiNote(v as i8))
        } else {
            None
        },
        None => None,
    }
}

impl MidiNote {
    /// The MIDI note with the given raw value.
    pub fn new(note: i8) -> (r: Self)
        ensures
            r == MidiNote(note),
    {
        MidiNote(note)
    }

    /// Middle C: MIDI note 60.
    pub fn middle_c() -> (r: Self)
        ensures
            r.0 == 60,
    {
        MidiNote(60)
    }

    /// The Stuttgart pitch, A above middle C: MIDI note 69.
    pub fn stuttgart() -> (r: Self)
        ensures
            r.0 == 69,
    {
        MidiNote(69)
    }

    /// The MIDI note of a pitch: the letter's chromatic offset, shifted by
    /// the accidental, plus twelve per octave above octave -1. The result
    /// must fit the signed byte; extreme octaves are excluded rather than
    /// silently truncated.
    pub fn from_pitch(pitch: Pitch) -> (r: Self)
        requires
            i8::MIN <= midi_of_pitch(pitch) <= i8::MAX,
        ensures
            r.0 == midi_of_pitch(pitch),
    {
        MidiNote(pitch.midi_value_wide() as i8)
    }

    /// The MIDI note of a tone: its chromatic ordinal plus twelve per
    /// octave above octave -1, under the same range condition as
    /// `from_pitch`.
    pub fn from_tone(tone: Tone) -> (r: Self)
        requires
            i8::MIN <= midi_of_tone(tone) <= i8::MAX,
        ensures
            r.0 == midi_of_tone(tone),
    {
        let c: i128 = tone.chromatic.ord() as i128;
        let oct: i128 = tone.octave.numeric() as i128;
        MidiNote((c + 12 * (oct + 1)) as i8)
    }

    /// The tone this MIDI value denotes.
    pub fn to_tone(self) -> (r: Tone)
        ensures
            r == tone_of_midi(self.0 as int),
    {
        let v: u32 = (self.0 as i32 + 144) as u32;
        let chromatic = Chromatic::wrapping_chr((v % 12) as isize);
        let octave = Octave((v / 12) as isize - 13);
        proof {
            let m = self.0 as int;
            lemma_mod_multiples_vanish(12, m, 12);
            assert((m + 144) % 12 == m % 12);
            lemma_small_mod(((m + 144) % 12) as nat, 12);
            lemma_hoist_over_denominator(m, 12, 12);
            assert((m + 144) / 12 == m / 12 + 12);
        }
        Tone { chromatic, octave }
    }

    /// The raw signed-byte value of this MIDI note.
    pub fn as_i8(&self) -> (r: i8)
        ensures
            r == self.0,
    {
        self.0
    }

    /// The MIDI note named by `s`: a signed decimal numeral that fits in a
    /// signed byte.
    pub fn parse(s: &str) -> (r: Option<Self>)
        ensures
            r == midi_of_text(s@),
    {
        match parse_int_in(s, i8::MIN as i128, i8::MAX as i128) {
            Some(v) => Some(MidiNote(v as i8)),
            None => None,
        }
    }

    /// The decimal text of this MIDI note's value.
    pub fn to_text(&self) -> (r: String)
        ensures
            r@ == int_text(self.0 as int),
    {
        int_text_of(self.0 as i128)
    }
}

impl From<i8> for MidiNote {
    /// A raw byte converts to the MIDI note it numbers.
    fn from(note: i8) -> (r: Self) {
        MidiNote(note)
    }
}

impl vstd::std_specs::convert::FromSpecImpl<i8> for MidiNote {
    open spec fn obeys_from_spec() -> bool {
        true
    }

    open spec fn from_spec(v: i8) -> Self {
        MidiNote(v)
    }
}

impl From<MidiNote> for i8 {
    /// A MIDI note converts to its raw byte.
    fn from(note: MidiNote) -> (r: Self) {
        note.0
    }
}

impl vstd::std_specs::convert::FromSpecImpl<MidiNote> for i8 {
    open spec fn obeys_from_spec() -> bool {
        true
    }

    open spec fn from_spec(v: MidiNote) -> Self {
        v.0
    }
}

/// Round trip: converting a tone in the MIDI range to a MIDI note and back
/// returns the same tone.
pub proof fn lemma_tone_round_trip(t: Tone)
    requires
        i8::MIN <= midi_of_tone(t) <= i8::MAX,
    ensures
        tone_of_midi(midi_of_tone(t)) == t,
{
    let c = crate::chromatic::chromatic_ord(t.chromatic);
    let oct = t.octave.0 as int;
    let m = midi_of_tone(t);
    lemma_mod_multiples_vanish(oct + 1, c, 12);
    lemma_small_mod(c as nat, 12);
    assert(m % 12 == c);
    lemma_hoist_over_denominator(c, oct + 1, 12);
    assert(c / 12 == 0) by {
        vstd::arithmetic::div_mod::lemma_basic_div(c, 12);
    }
    assert(m / 12 == oct + 1);
}

} // verus!
