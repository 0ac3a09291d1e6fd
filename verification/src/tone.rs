//! Tones: a chromatic class plus an octave — the canonical 12-tone
//! counterpart of a pitch, free of enharmonic ambiguity.

use vstd::prelude::*;
use vstd::string::*;
use core::cmp::Ordering;
use crate::chromatic::{chromatic_name, chromatic_ord, Chromatic};
use crate::midi_note::MidiNote;
use crate::numeral::int_text;
use crate::octave::Octave;
use crate::pitch::{midi_of_pitch, pitch_of_text, Pitch};

verus! {

/// A chromatic class in a specific octave, e.g. C♯/D♭4. Equality is
/// structural; the ordering compares through the MIDI projection.
#[derive(Clone, Copy, Debug, Eq, PartialEq, Structural)]
pub struct Tone {
    pub chromatic: Chromatic,
    pub octave: Octave,
}

/// The MIDI value of a tone, as an unbounded integer: its chromatic
/// ordinal plus twelve per octave above octave -1.
pub open spec fn midi_of_tone(t: Tone) -> int {
    chromatic_ord(t.chromatic) + 12 * (t.octave.0 + 1)
}

/// The tone denoted by a piece of text: the pitch it spells, sounded as
/// its canonical tone. The pitch must lie in the signed-byte MIDI range;
/// octaves beyond it are rejected rather than silently truncated.
pub open spec fn tone_of_text(s: Seq<char>) -> Option<Tone> {
    match pitch_of_text(s) {
        Some(p) => if i8::MIN <= midi_of_pitch(p) <= i8::MAX {
            Some(crate::midi_note::tone_of_midi(midi_of_pitch(p)))
        } else {
            None
        },
        None => None,
    }
}

/// The display text of a tone: its chromatic class's enharmonic-pair name,
/// then its octave index.
pub open spec fn tone_text(t: Tone) -> Seq<char> {
    chromatic_name(t.chromatic) + int_text(t.octave.0 as int)
}

impl Tone {
    /// The tone sounding `chromatic` in `octave`.
    pub fn new(chromatic: Chromatic, octave: Octave) -> (r: Self)
        ensures
            r == (Tone { chromatic, octave }),
    {
        Tone { chromatic, octave }
    }

    /// Middle C as a tone: chromatic C in octave 4.
    pub fn middle_c() -> (r: Self)
        ensures
            r == (Tone { chromatic: Chromatic::C, octave: Octave(4) }),
    {
        Tone { chromatic: Chromatic::C, octave: Octave(4) }
    }

    /// The Stuttgart pitch as a tone: chromatic A in octave 4.
    pub fn stuttgart() -> (r: Self)
        ensures
            r == (Tone { chromatic: Chromatic::A, octave: Octave(4) }),
    {
        Tone { chromatic: Chromatic::A, octave: Octave(4) }
    }

    /// The MIDI note of this tone; it must lie in the signed-byte range.
    pub fn to_midi_note(self) -> (r: MidiNote)
        requires
            i8::MIN <= midi_of_tone(self) <= i8::MAX,
        ensures
            r.0 == midi_of_tone(self),
    {
        MidiNote::from_tone(self)
    }

    /// The MIDI value of this tone, computed without truncation.
    pub(crate) fn midi_value_wide(self) -> (r: i128)
        ensures
            r == midi_of_tone(self),
    {
        let c: i128 = self.chromatic.ord() as i128;
        let oct: i128 = self.octave.numeric() as i128;
        c + 12 * (oct + 1)
    }

    /// The tone named by `s`: a pitch spelling, resolved to its canonical
    /// tone.
    pub fn parse(s: &str) -> (r: Option<Self>)
        ensures
            r == tone_of_text(s@),
    {
        match Pitch::parse(s) {
            Some(p) => {
                let m = p.midi_value_wide();
                if -128 <= m && m <= 127 {
                    Some(p.to_tone())
                } else {
                    None
                }
            },
            None => None,
        }
    }

    /// The display text of this tone.
    pub fn to_text(&self) -> (r: String)
        ensures
            r@ == tone_text(*self),
    {
        String::from_str(self.chromatic.name()).concat(self.octave.to_text().as_str())
    }
}

impl From<Tone> for (Chromatic, Octave) {
    /// A tone converts to its chromatic class and octave.
    fn from(tone: Tone) -> (r: Self) {
        (tone.chromatic, tone.octave)
    }
}

impl vstd::std_specs::convert::FromSpecImpl<Tone> for (Chromatic, Octave) {
    open spec fn obeys_from_spec() -> bool {
        true
    }

    open spec fn from_spec(v: Tone) -> Self {
        (v.chromatic, v.octave)
    }
}

impl From<(Chromatic, Octave)> for Tone {
    /// A chromatic class and an octave convert to the tone sounding there.
    fn from(parts: (Chromatic, Octave)) -> (r: Self) {
        Tone { chromatic: parts.0, octave: parts.1 }
    }
}

impl vstd::std_specs::convert::FromSpecImpl<(Chromatic, Octave)> for Tone {
    open spec fn obeys_from_spec() -> bool {
        true
    }

    open spec fn from_spec(v: (Chromatic, Octave)) -> Self {
        Tone { chromatic: v.0, octave: v.1 }
    }
}

impl PartialOrd for Tone {
    /// Tones are ordered by their MIDI projection.
    fn partial_cmp(&self, other: &Self) -> (r: Option<Ordering>) {
        let a = self.midi_value_wide();
        let b = other.midi_value_wide();
        if a < b {
            Some(Ordering::Less)
        } else if a == b {
            Some(Ordering::Equal)
        } else {
            Some(Ordering::Greater)
        }
    }
}

impl vstd::std_specs::cmp::PartialOrdSpecImpl for Tone {
    open spec fn obeys_partial_cmp_spec() -> bool {
        true
    }

    open spec fn partial_cmp_spec(&self, other: &Self) -> Option<Ordering> {
        if midi_of_tone(*self) < midi_of_tone(*other) {
            Some(Ordering::Less)
        } else if midi_of_tone(*self) == midi_of_tone(*other) {
            Some(Ordering::Equal)
        } else {
            Some(Ordering::Greater)
        }
    }
}

} // verus!
