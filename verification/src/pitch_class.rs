//! Pitch classes: a diatonic letter plus an accidental, independent of
//! octave.

use vstd::prelude::*;
use vstd::string::*;
use crate::accidental::{accidental_of_text, accidental_symbol, Accidental};
use crate::chromatic::{wrap_chromatic, Chromatic};
use crate::diatonic::{diatonic_name, diatonic_of_char, diatonic_ord, Diatonic};

verus! {

/// A letter name together with an accidental, e.g. C sharp. Equality is
/// structural: two spellings of the same sounding class, such as C sharp
/// and D flat, are distinct pitch classes, related only by `enharmonic`.
#[derive(Clone, Copy, Debug, Eq, PartialEq, Structural)]
pub struct PitchClass {
    pub base: Diatonic,
    pub accidental: Accidental,
}

/// The chromatic class a pitch class resolves to: the letter's offset
/// shifted by the accidental, wrapped into the octave by Euclidean modulo.
pub open spec fn pitch_class_chromatic(pc: PitchClass) -> Chromatic {
    wrap_chromatic(diatonic_ord(pc.base) + pc.accidental.0)
}

/// The pitch class denoted by a piece of text: a letter character followed
/// by accidental text (which may be empty, for a natural).
pub open spec fn pitch_class_of_text(s: Seq<char>) -> Option<PitchClass> {
    if s.len() == 0 {
        None
    } else {
        match diatonic_of_char(s[0]) {
            Some(d) => match accidental_of_text(s.subrange(1, s.len() as int)) {
                Some(a) => Some(PitchClass { base: d, accidental: a }),
                None => None,
            },
            None => None,
        }
    }
}

/// The display text of a pitch class: the letter's name followed by the
/// accidental's symbol.
pub open spec fn pitch_class_text(pc: PitchClass) -> Seq<char> {
    diatonic_name(pc.base) + accidental_symbol(pc.accidental.0 as int)
}

impl PitchClass {
    /// The pitch class spelling `base` shifted by `accidental`.
    pub fn new(base: Diatonic, accidental: Accidental) -> (r: Self)
        ensures
            r == (PitchClass { base, accidental }),
    {
        PitchClass { base, accidental }
    }

    /// The chromatic class this spelling resolves to.
    pub fn chromatic(self) -> (r: Chromatic)
        ensures
            r == pitch_class_chromatic(self),
    {
        self.base.with(self.accidental)
    }

    /// Whether two spellings denote the same sounding class: their resolved
    /// chromatic classes are equal, whatever their letters and accidentals.
    pub fn enharmonic(&self, rhs: &Self) -> (r: bool)
        ensures
            r == (pitch_class_chromatic(*self) == pitch_class_chromatic(*rhs)),
    {
        self.chromatic() == rhs.chromatic()
    }

    /// The pitch class named by `s`: a letter, then an accidental.
    pub fn parse(s: &str) -> (r: Option<Self>)
        ensures
            r == pitch_class_of_text(s@),
    {
        let n = s.unicode_len();
        if n == 0 {
            return None;
        }
        match Diatonic::from_char(s.get_char(0)) {
            Some(d) => match Accidental::parse(s.substring_char(1, n)) {
                Some(a) => Some(PitchClass { base: d, accidental: a }),
                None => None,
            },
            None => None,
        }
    }

    /// The display text of this pitch class.
    pub fn to_text(&self) -> (r: String)
        ensures
            r@ == pitch_class_text(*self),
    {
        String::from_str(self.base.name()).concat(self.accidental.name())
    }
}

impl From<PitchClass> for Chromatic {
    /// A pitch class converts to the chromatic class it resolves to.
    fn from(pitch_class: PitchClass) -> (r: Self) {
        pitch_class.chromatic()
    }
}

impl vstd::std_specs::convert::FromSpecImpl<PitchClass> for Chromatic {
    open spec fn obeys_from_spec() -> bool {
        true
    }

    open spec fn from_spec(v: PitchClass) -> Self {
        pitch_class_chromatic(v)
    }
}

impl From<PitchClass> for (Diatonic, Accidental) {
    /// A pitch class converts to its letter and accidental.
    fn from(pitch_class: PitchClass) -> (r: Self) {
        (pitch_class.base, pitch_class.accidental)
    }
}

impl vstd::std_specs::convert::FromSpecImpl<PitchClass> for (Diatonic, Accidental) {
    open spec fn obeys_from_spec() -> bool {
        true
    }

    open spec fn from_spec(v: PitchClass) -> Self {
        (v.base, v.accidental)
    }
}

impl From<(Diatonic, Accidental)> for PitchClass {
    /// A letter and an accidental convert to the pitch class they spell.
    fn from(parts: (Diatonic, Accidental)) -> (r: Self) {
        PitchClass { base: parts.0, accidental: parts.1 }
    }
}

impl vstd::std_specs::convert::FromSpecImpl<(Diatonic, Accidental)> for PitchClass {
    open spec fn obeys_from_spec() -> bool {
        true
    }

    open spec fn from_spec(v: (Diatonic, Accidental)) -> Self {
        PitchClass { base: v.0, accidental: v.1 }
    }
}

/// Resolving a pitch class built from any letter and any accidental gives
/// the chromatic class at the letter's offset shifted by the accidental's
/// pitch shift, wrapped by Euclidean modulo twelve.
pub proof fn lemma_pitch_class_resolution(d: Diatonic, a: Accidental)
    ensures
        pitch_class_chromatic(PitchClass { base: d, accidental: a }) == wrap_chromatic(
            diatonic_ord(d) + a.0,
        ),
{
}

} // verus!
