//! The twelve equal-tempered pitch classes and their modular arithmetic.

use vstd::prelude::*;
use vstd::arithmetic::div_mod::{
    lemma_add_mod_noop_right, lemma_mod_add_multiples_vanish, lemma_small_mod,
    lemma_sub_mod_noop_right,
};
use vstd::string::*;
use crate::accidental::Accidental;
use crate::diatonic::{diatonic_from_ord, Diatonic};
use crate::pitch_class::{pitch_class_chromatic, pitch_class_of_text, PitchClass};

verus! {

/// One of the twelve equal semitone classes within an octave, ordinal 0..=11.
/// The five "black-key" classes carry their enharmonic pair as a display name.
#[derive(Clone, Copy, Debug, Eq, PartialEq, Structural)]
pub enum Chromatic {
    C,
    CsDb,
    D,
    DsEb,
    E,
    F,
    FsGb,
    G,
    GsAb,
    A,
    AsBb,
    B,
}

/// The ordinal of a chromatic class: its distance in semitones above C.
pub open spec fn chromatic_ord(c: Chromatic) -> int {
    match c {
        Chromatic::C => 0,
        Chromatic::CsDb => 1,
        Chromatic::D => 2,
        Chromatic::DsEb => 3,
        Chromatic::E => 4,
        Chromatic::F => 5,
        Chromatic::FsGb => 6,
        Chromatic::G => 7,
        Chromatic::GsAb => 8,
        Chromatic::A => 9,
        Chromatic::AsBb => 10,
        Chromatic::B => 11,
    }
}

/// The chromatic class with a given ordinal; meaningful for 0 <= r < 12.
pub open spec fn chromatic_from_ord(r: int) -> Chromatic {
    if r == 0 {
        Chromatic::C
    } else if r == 1 {
        Chromatic::CsDb
    } else if r == 2 {
        Chromatic::D
    } else if r == 3 {
        Chromatic::DsEb
    } else if r == 4 {
        Chromatic::E
    } else if r == 5 {
        Chromatic::F
    } else if r == 6 {
        Chromatic::FsGb
    } else if r == 7 {
        Chromatic::G
    } else if r == 8 {
        Chromatic::GsAb
    } else if r == 9 {
        Chromatic::A
    } else if r == 10 {
        Chromatic::AsBb
    } else {
        Chromatic::B
    }
}

/// The chromatic class of an arbitrary semitone count, wrapped into an
/// octave by Euclidean modulo: the result's ordinal is `n % 12`, never
/// negative, whatever the sign of `n`.
pub open spec fn wrap_chromatic(n: int) -> Chromatic {
    chromatic_from_ord(n % 12)
}

/// The enharmonic-pair display name of a chromatic class: a bare letter for
/// the seven white-key classes, both spellings for the five black-key ones.
pub open spec fn chromatic_name(c: Chromatic) -> Seq<char> {
    match c {
        Chromatic::C => seq!['C'],
        Chromatic::CsDb => seq!['C', '\u{266f}', '/', 'D', '\u{266d}'],
        Chromatic::D => seq!['D'],
        Chromatic::DsEb => seq!['D', '\u{266f}', '/', 'E', '\u{266d}'],
        Chromatic::E => seq!['E'],
        Chromatic::F => seq!['F'],
        Chromatic::FsGb => seq!['F', '\u{266f}', '/', 'G', '\u{266d}'],
        Chromatic::G => seq!['G'],
        Chromatic::GsAb => seq!['G', '\u{266f}', '/', 'A', '\u{266d}'],
        Chromatic::A => seq!['A'],
        Chromatic::AsBb => seq!['A', '\u{266f}', '/', 'B', '\u{266d}'],
        Chromatic::B => seq!['B'],
    }
}

/// The chromatic classes repeat with period 12: shifting a semitone count
/// by a whole octave selects the same class.
pub proof fn lemma_wrapping_period(n: int)
    ensures
        wrap_chromatic(n + 12) == wrap_chromatic(n),
{
    lemma_mod_add_multiples_vanish(n, 12);
}

impl Chromatic {
    /// How many chromatic classes there are in an octave.
    pub const NOTES: u8 = 12;

    /// The enharmonic-pair display name of this class.
    pub fn name(&self) -> (r: &'static str)
        ensures
            r@ == chromatic_name(*self),
    {
        proof {
            reveal_strlit("C");
            reveal_strlit("C\u{266f}/D\u{266d}");
            reveal_strlit("D");
            reveal_strlit("D\u{266f}/E\u{266d}");
            reveal_strlit("E");
            reveal_strlit("F");
            reveal_strlit("F\u{266f}/G\u{266d}");
            reveal_strlit("G");
            reveal_strlit("G\u{266f}/A\u{266d}");
            reveal_strlit("A");
            reveal_strlit("A\u{266f}/B\u{266d}");
            reveal_strlit("B");
            assert("C\u{266f}/D\u{266d}"@ =~= chromatic_name(Chromatic::CsDb));
            assert("D\u{266f}/E\u{266d}"@ =~= chromatic_name(Chromatic::DsEb));
            assert("F\u{266f}/G\u{266d}"@ =~= chromatic_name(Chromatic::FsGb));
            assert("G\u{266f}/A\u{266d}"@ =~= chromatic_name(Chromatic::GsAb));
            assert("A\u{266f}/B\u{266d}"@ =~= chromatic_name(Chromatic::AsBb));
        }
        match self {
            Chromatic::C => "C",
            Chromatic::CsDb => "C\u{266f}/D\u{266d}",
            Chromatic::D => "D",
            Chromatic::DsEb => "D\u{266f}/E\u{266d}",
            Chromatic::E => "E",
            Chromatic::F => "F",
            Chromatic::FsGb => "F\u{266f}/G\u{266d}",
            Chromatic::G => "G",
            Chromatic::GsAb => "G\u{266f}/A\u{266d}",
            Chromatic::A => "A",
            Chromatic::AsBb => "A\u{266f}/B\u{266d}",
            Chromatic::B => "B",
        }
    }

    /// The letter spelling this class exactly, if any: the seven white-key
    /// classes have one, the five black-key classes have none.
    pub fn try_diatonic(self) -> (r: Option<Diatonic>)
        ensures
            r == diatonic_from_ord(chromatic_ord(self)),
    {
        Diatonic::checked_chr(self.ord())
    }

    /// The ordinal of this class: 0 for C up to 11 for B.
    pub fn ord(self) -> (r: isize)
        ensures
            r == chromatic_ord(self),
    {
        match self {
            Chromatic::C => 0,
            Chromatic::CsDb => 1,
            Chromatic::D => 2,
            Chromatic::DsEb => 3,
            Chromatic::E => 4,
            Chromatic::F => 5,
            Chromatic::FsGb => 6,
            Chromatic::G => 7,
            Chromatic::GsAb => 8,
            Chromatic::A => 9,
            Chromatic::AsBb => 10,
            Chromatic::B => 11,
        }
    }

    /// The class whose ordinal is `ord` wrapped into 0..=11 by Euclidean
    /// modulo; total for every input, negative counts wrap downward.
    pub fn wrapping_chr(ord: isize) -> (r: Self)
        ensures
            r == wrap_chromatic(ord as int),
    {
        let m = ord.checked_rem_euclid(12).unwrap();
        if m == 0 {
            Chromatic::C
        } else if m == 1 {
            Chromatic::CsDb
        } else if m == 2 {
            Chromatic::D
        } else if m == 3 {
            Chromatic::DsEb
        } else if m == 4 {
            Chromatic::E
        } else if m == 5 {
            Chromatic::F
        } else if m == 6 {
            Chromatic::FsGb
        } else if m == 7 {
            Chromatic::G
        } else if m == 8 {
            Chromatic::GsAb
        } else if m == 9 {
            Chromatic::A
        } else if m == 10 {
            Chromatic::AsBb
        } else {
            Chromatic::B
        }
    }

    /// The checked counterpart of `wrapping_chr`. Because every integer has
    /// a residue modulo 12, this never actually fails: it returns
    /// `Some(Self::wrapping_chr(ord))` for every input.
    pub fn checked_chr(ord: isize) -> (r: Option<Self>)
        ensures
            r == Some(wrap_chromatic(ord as int)),
    {
        Some(Self::wrapping_chr(ord))
    }

    /// Advance this class by `semitones`, wrapping within the octave.
    pub fn sharpen(self, semitones: isize) -> (r: Chromatic)
        ensures
            r == wrap_chromatic(chromatic_ord(self) + semitones),
    {
        let m = semitones.checked_rem_euclid(12).unwrap();
        let r = Self::wrapping_chr(self.ord() + m);
        proof {
            lemma_add_mod_noop_right(chromatic_ord(self), semitones as int, 12);
        }
        r
    }

    /// Lower this class by `semitones`, wrapping within the octave.
    pub fn flatten(self, semitones: isize) -> (r: Chromatic)
        ensures
            r == wrap_chromatic(chromatic_ord(self) - semitones),
    {
        let m = semitones.checked_rem_euclid(12).unwrap();
        let r = Self::wrapping_chr(self.ord() + 12 - m);
        proof {
            let o = chromatic_ord(self);
            lemma_sub_mod_noop_right(o + 12, semitones as int, 12);
            lemma_mod_add_multiples_vanish(o - semitones, 12);
            assert((o + 12 - m) % 12 == (o - semitones) % 12);
        }
        r
    }

    /// Apply an accidental to this class: advance by its signed shift,
    /// wrapping within the octave (a negative shift flattens).
    pub fn with(self, accidental: Accidental) -> (r: Chromatic)
        ensures
            r == wrap_chromatic(chromatic_ord(self) + accidental.0),
    {
        self.sharpen(accidental.pitch_shift())
    }

    /// The chromatic class named by `s`: a pitch-class spelling (letter
    /// plus accidental), resolved to the class it sounds as.
    pub fn parse(s: &str) -> (r: Option<Self>)
        ensures
            r == chromatic_of_text(s@),
    {
        match PitchClass::parse(s) {
            Some(pc) => Some(pc.chromatic()),
            None => None,
        }
    }
}

impl From<Chromatic> for isize {
    /// A chromatic class converts to its raw ordinal.
    fn from(note: Chromatic) -> (r: Self) {
        note.ord()
    }
}

impl vstd::std_specs::convert::FromSpecImpl<Chromatic> for isize {
    open spec fn obeys_from_spec() -> bool {
        true
    }

    open spec fn from_spec(v: Chromatic) -> Self {
        chromatic_ord(v) as isize
    }
}

/// The chromatic class denoted by a piece of text: the class that the
/// pitch-class spelling in the text resolves to.
pub open spec fn chromatic_of_text(s: Seq<char>) -> Option<Chromatic> {
    match pitch_class_of_text(s) {
        Some(pc) => Some(pitch_class_chromatic(pc)),
        None => None,
    }
}

} // verus!
