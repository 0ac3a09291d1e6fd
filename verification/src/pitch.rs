//! Pitches: a pitch class plus an octave, in human notation such as C♯4.

use vstd::prelude::*;
use vstd::string::*;
use core::cmp::Ordering;
use crate::diatonic::diatonic_ord;
use crate::midi_note::{tone_of_midi, MidiNote};
use crate::numeral::is_digit;
use crate::octave::{octave_of_text, Octave};
use crate::pitch_class::{pitch_class_of_text, pitch_class_text, PitchClass};
use crate::tone::Tone;

verus! {

/// A pitch class in a specific octave. Equality is structural — C♯4 and
/// D♭4 are distinct pitches — while `enharmonic` and the ordering compare
/// through the MIDI projection, under which the two coincide.
#[derive(Clone, Copy, Debug, Eq, PartialEq, Structural)]
pub struct Pitch {
    pub pitch_class: PitchClass,
    pub octave: Octave,
}

/// The MIDI value of a pitch, as an unbounded integer: the letter's offset,
/// shifted by the accidental, plus twelve per octave above octave -1.
pub open spec fn midi_of_pitch(p: Pitch) -> int {
    diatonic_ord(p.pitch_class.base) + p.pitch_class.accidental.0 + 12 * (p.octave.0 + 1)
}

/// Whether a character opens the octave part of a pitch's text: an ASCII
/// digit or a minus sign.
pub open spec fn is_octave_start(c: char) -> bool {
    is_digit(c) || c == '-'
}

/// The index of the first character of `s` that opens an octave part, or
/// the length of `s` if there is none.
pub open spec fn split_point(s: Seq<char>) -> int
    decreases s.len(),
{
    if s.len() == 0 {
        0
    } else if is_octave_start(s[0]) {
        0
    } else {
        1 + split_point(s.subrange(1, s.len() as int))
    }
}

/// The pitch denoted by a piece of text: everything before the first digit
/// or minus sign spells the pitch class, everything from that point on is
/// the signed octave numeral. Text with no such boundary, or whose parts do
/// not parse, denotes no pitch.
pub open spec fn pitch_of_text(s: Seq<char>) -> Option<Pitch> {
    let i = split_point(s);
    if i == s.len() {
        None
    } else {
        match pitch_class_of_text(s.subrange(0, i)) {
            Some(pc) => match octave_of_text(s.subrange(i, s.len() as int)) {
                Some(o) => Some(Pitch { pitch_class: pc, octave: o }),
                None => None,
            },
            None => None,
        }
    }
}

/// The display text of a pitch: its pitch class, then its octave index.
pub open spec fn pitch_text(p: Pitch) -> Seq<char> {
    pitch_class_text(p.pitch_class) + crate::numeral::int_text(p.octave.0 as int)
}

/// The split point is exactly characterised by what lies on each side: no
/// octave-start character before it, and one at it unless the text ends.
proof fn lemma_split_point(s: Seq<char>, i: int)
    requires
        0 <= i <= s.len(),
        forall|j: int| 0 <= j < i ==> !is_octave_start(s[j]),
        i < s.len() ==> is_octave_start(s[i]),
    ensures
        split_point(s) == i,
    decreases s.len(),
{
    if s.len() == 0 {
    } else if is_octave_start(s[0]) {
    } else {
        let t = s.subrange(1, s.len() as int);
        assert(forall|j: int| 0 <= j < i - 1 ==> t[j] == s[j + 1]);
        lemma_split_point(t, i - 1);
    }
}

/// The index of the first octave-start character of `s`, or its length.
fn boundary_index(s: &str) -> (i: usize)
    ensures
        i <= s@.len(),
        forall|j: int| 0 <= j < i ==> !is_octave_start(s@[j]),
        i < s@.len() ==> is_octave_start(s@[i as int]),
{
    let n = s.unicode_len();
    let mut i: usize = 0;
    while i < n
        invariant
            i <= n,
            n == s@.len(),
            forall|j: int| 0 <= j < i ==> !is_octave_start(s@[j]),
        decreases n - i,
    {
        let c = s.get_char(i);
        let u: u32 = c as u32;
        if (48 <= u && u <= 57) || c == '-' {
            return i;
        }
        i = i + 1;
    }
    i
}

impl Pitch {
    /// The pitch spelling `pitch_class` in `octave`.
    pub fn new(pitch_class: PitchClass, octave: Octave) -> (r: Self)
        ensures
            r == (Pitch { pitch_class, octave }),
    {
        Pitch { pitch_class, octave }
    }

    /// Middle C: the C natural of octave 4.
    pub fn middle_c() -> (r: Self)
        ensures
            r == (Pitch {
                pitch_class: PitchClass {
                    base: crate::diatonic::Diatonic::C,
                    accidental: crate::accidental::Accidental(0),
                },
                octave: Octave(4),
            }),
    {
        Pitch {
            pitch_class: PitchClass {
                base: crate::diatonic::Diatonic::C,
                accidental: crate::accidental::Accidental(0),
            },
            octave: Octave(4),
        }
    }

    /// The Stuttgart pitch: the A natural of octave 4, MIDI note 69.
    pub fn stuttgart() -> (r: Self)
        ensures
            r == (Pitch {
                pitch_class: PitchClass {
                    base: crate::diatonic::Diatonic::A,
                    accidental: crate::accidental::Accidental(0),
                },
                octave: Octave(4),
            }),
    {
        Pitch {
            pitch_class: PitchClass {
                base: crate::diatonic::Diatonic::A,
                accidental: crate::accidental::Accidental(0),
            },
            octave: Octave(4),
        }
    }

    /// The MIDI value of this pitch, computed without truncation; wide
    /// enough for every representable octave and accidental.
    pub(crate) fn midi_value_wide(self) -> (r: i128)
        ensures
            r == midi_of_pitch(self),
    {
        let base: i128 = self.pitch_class.base.ord() as i128;
        let shift: i128 = self.pitch_class.accidental.pitch_shift() as i128;
        let oct: i128 = self.octave.numeric() as i128;
        base + shift + 12 * (oct + 1)
    }

    /// The tone this pitch sounds as: its MIDI note's canonical spelling.
    pub fn to_tone(self) -> (r: Tone)
        requires
            i8::MIN <= midi_of_pitch(self) <= i8::MAX,
        ensures
            r == tone_of_midi(midi_of_pitch(self)),
    {
        self.to_midi_note().to_tone()
    }

    /// The MIDI note of this pitch; it must lie in the signed-byte range.
    pub fn to_midi_note(self) -> (r: MidiNote)
        requires
            i8::MIN <= midi_of_pitch(self) <= i8::MAX,
        ensures
            r.0 == midi_of_pitch(self),
    {
        MidiNote::from_pitch(self)
    }

    /// Whether two pitches sound alike: their MIDI values are equal, octave
    /// included. Unlike the octave-free `PitchClass::enharmonic`, C♯4 and
    /// D♭4 are enharmonic but C♯4 and D♭5 are not.
    pub fn enharmonic(&self, other: &Self) -> (r: bool)
        ensures
            r == (midi_of_pitch(*self) == midi_of_pitch(*other)),
    {
        self.midi_value_wide() == other.midi_value_wide()
    }

    /// The pitch named by `s`: a pitch-class spelling up to the first digit
    /// or minus sign, then a signed octave numeral.
    pub fn parse(s: &str) -> (r: Option<Self>)
        ensures
            r == pitch_of_text(s@),
    {
        let n = s.unicode_len();
        let i = boundary_index(s);
        proof {
            lemma_split_point(s@, i as int);
        }
        if i == n {
            return None;
        }
        match PitchClass::parse(s.substring_char(0, i)) {
            Some(pc) => match Octave::parse(s.substring_char(i, n)) {
                Some(o) => Some(Pitch { pitch_class: pc, octave: o }),
                None => None,
            },
            None => None,
        }
    }

    /// The display text of this pitch.
    pub fn to_text(&self) -> (r: String)
        ensures
            r@ == pitch_text(*self),
    {
        self.pitch_class.to_text().concat(self.octave.to_text().as_str())
    }
}

impl From<Pitch> for (PitchClass, Octave) {
    /// A pitch converts to its pitch class and octave.
    fn from(pitch: Pitch) -> (r: Self) {
        (pitch.pitch_class, pitch.octave)
    }
}

impl vstd::std_specs::convert::FromSpecImpl<Pitch> for (PitchClass, Octave) {
    open spec fn obeys_from_spec() -> bool {
        true
    }

    open spec fn from_spec(v: Pitch) -> Self {
        (v.pitch_class, v.octave)
    }
}

impl From<(PitchClass, Octave)> for Pitch {
    /// A pitch class and an octave convert to the pitch they spell.
    fn from(parts: (PitchClass, Octave)) -> (r: Self) {
        Pitch { pitch_class: parts.0, octave: parts.1 }
    }
}

impl vstd::std_specs::convert::FromSpecImpl<(PitchClass, Octave)> for Pitch {
    open spec fn obeys_from_spec() -> bool {
        true
    }

    open spec fn from_spec(v: (PitchClass, Octave)) -> Self {
        Pitch { pitch_class: v.0, octave: v.1 }
    }
}

impl PartialOrd for Pitch {
    /// Pitches are ordered by their MIDI projection, a many-to-one quotient
    /// of the structural representation: enharmonic spellings in the same
    /// octave compare equal here even though `==` distinguishes them.
    fn partial_cmp(&self, other: &Self) -> (r: Option<Ordering>) {
        let a = self.midi_value_wide();
        let b = other.midi_value_wide();
        if a < b {
            Some(Ordering::Less)
        } else if a == b {
            Some(Ordering::Equal)
        } else {
            Some(Ordering::Greater)
        }
    }
}

impl vstd::std_specs::cmp::PartialOrdSpecImpl for Pitch {
    open spec fn obeys_partial_cmp_spec() -> bool {
        true
    }

    open spec fn partial_cmp_spec(&self, other: &Self) -> Option<Ordering> {
        if midi_of_pitch(*self) < midi_of_pitch(*other) {
            Some(Ordering::Less)
        } else if midi_of_pitch(*self) == midi_of_pitch(*other) {
            Some(Ordering::Equal)
        } else {
            Some(Ordering::Greater)
        }
    }
}

} // verus!
