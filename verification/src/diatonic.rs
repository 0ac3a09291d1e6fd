//! The seven diatonic letter names and their fixed chromatic offsets.

use vstd::prelude::*;
use vstd::arithmetic::div_mod::lemma_small_mod;
use vstd::string::*;
use crate::accidental::Accidental;
use crate::chromatic::{chromatic_ord, wrap_chromatic, Chromatic};

verus! {

/// One of the seven natural letter names. Each letter sits at a fixed,
/// uneven chromatic offset above C (0, 2, 4, 5, 7, 9, 11), reflecting the
/// whole/half-step pattern of the major scale.
#[derive(Clone, Copy, Debug, Eq, PartialEq, Structural)]
pub enum Diatonic {
    C,
    D,
    E,
    F,
    G,
    A,
    B,
}

/// The fixed chromatic offset of a letter: how many semitones it sits
/// above C.
pub open spec fn diatonic_ord(d: Diatonic) -> int {
    match d {
        Diatonic::C => 0,
        Diatonic::D => 2,
        Diatonic::E => 4,
        Diatonic::F => 5,
        Diatonic::G => 7,
        Diatonic::A => 9,
        Diatonic::B => 11,
    }
}

/// The letter sitting exactly at chromatic offset `n`, if any. Unlike the
/// chromatic wraparound, no modulo is applied: the letters are not evenly
/// spaced, and only the seven exact offsets have a letter.
pub open spec fn diatonic_from_ord(n: int) -> Option<Diatonic> {
    if n == 0 {
        Some(Diatonic::C)
    } else if n == 2 {
        Some(Diatonic::D)
    } else if n == 4 {
        Some(Diatonic::E)
    } else if n == 5 {
        Some(Diatonic::F)
    } else if n == 7 {
        Some(Diatonic::G)
    } else if n == 9 {
        Some(Diatonic::A)
    } else if n == 11 {
        Some(Diatonic::B)
    } else {
        None
    }
}

/// The letter named by a single character, upper or lower case.
pub open spec fn diatonic_of_char(c: char) -> Option<Diatonic> {
    if c == 'C' || c == 'c' {
        Some(Diatonic::C)
    } else if c == 'D' || c == 'd' {
        Some(Diatonic::D)
    } else if c == 'E' || c == 'e' {
        Some(Diatonic::E)
    } else if c == 'F' || c == 'f' {
        Some(Diatonic::F)
    } else if c == 'G' || c == 'g' {
        Some(Diatonic::G)
    } else if c == 'A' || c == 'a' {
        Some(Diatonic::A)
    } else if c == 'B' || c == 'b' {
        Some(Diatonic::B)
    } else {
        None
    }
}

/// The letter named by a piece of text: exactly one character.
pub open spec fn diatonic_of_text(s: Seq<char>) -> Option<Diatonic> {
    if s.len() == 1 {
        diatonic_of_char(s[0])
    } else {
        None
    }
}

/// The display name of a letter.
pub open spec fn diatonic_name(d: Diatonic) -> Seq<char> {
    match d {
        Diatonic::C => seq!['C'],
        Diatonic::D => seq!['D'],
        Diatonic::E => seq!['E'],
        Diatonic::F => seq!['F'],
        Diatonic::G => seq!['G'],
        Diatonic::A => seq!['A'],
        Diatonic::B => seq!['B'],
    }
}

impl Diatonic {
    /// How many diatonic letters there are in an octave.
    pub const NOTES: u8 = 7;

    /// The display name of this letter.
    pub fn name(&self) -> (r: &'static str)
        ensures
            r@ == diatonic_name(*self),
    {
        proof {
            reveal_strlit("C");
            reveal_strlit("D");
            reveal_strlit("E");
            reveal_strlit("F");
            reveal_strlit("G");
            reveal_strlit("A");
            reveal_strlit("B");
        }
        match self {
            Diatonic::C => "C",
            Diatonic::D => "D",
            Diatonic::E => "E",
            Diatonic::F => "F",
            Diatonic::G => "G",
            Diatonic::A => "A",
            Diatonic::B => "B",
        }
    }

    /// The chromatic offset of this letter.
    pub fn ord(self) -> (r: isize)
        ensures
            r == diatonic_ord(self),
    {
        match self {
            Diatonic::C => 0,
            Diatonic::D => 2,
            Diatonic::E => 4,
            Diatonic::F => 5,
            Diatonic::G => 7,
            Diatonic::A => 9,
            Diatonic::B => 11,
        }
    }

    /// The chromatic class this letter denotes: the class at its offset.
    pub fn chromatic(self) -> (r: Chromatic)
        ensures
            r == wrap_chromatic(diatonic_ord(self)),
            chromatic_ord(r) == diatonic_ord(self),
    {
        let r = Chromatic::wrapping_chr(self.ord());
        proof {
            lemma_small_mod(diatonic_ord(self) as nat, 12);
        }
        r
    }

    /// The letter sitting exactly at chromatic offset `ord`, if any; the
    /// five black-key offsets and every offset outside 0..=11 have none.
    pub fn checked_chr(ord: isize) -> (r: Option<Self>)
        ensures
            r == diatonic_from_ord(ord as int),
    {
        if ord == 0 {
            Some(Diatonic::C)
        } else if ord == 2 {
            Some(Diatonic::D)
        } else if ord == 4 {
            Some(Diatonic::E)
        } else if ord == 5 {
            Some(Diatonic::F)
        } else if ord == 7 {
            Some(Diatonic::G)
        } else if ord == 9 {
            Some(Diatonic::A)
        } else if ord == 11 {
            Some(Diatonic::B)
        } else {
            None
        }
    }

    /// Lower this letter's chromatic class by `semitones`, wrapping within
    /// the octave.
    pub fn flatten(self, semitones: isize) -> (r: Chromatic)
        ensures
            r == wrap_chromatic(diatonic_ord(self) - semitones),
    {
        self.chromatic().flatten(semitones)
    }

    /// Raise this letter's chromatic class by `semitones`, wrapping within
    /// the octave.
    pub fn sharpen(self, semitones: isize) -> (r: Chromatic)
        ensures
            r == wrap_chromatic(diatonic_ord(self) + semitones),
    {
        self.chromatic().sharpen(semitones)
    }

    /// Apply an accidental to this letter: the chromatic class at the
    /// letter's offset shifted by the accidental, wrapped within the octave.
    pub fn with(self, accidental: Accidental) -> (r: Chromatic)
        ensures
            r == wrap_chromatic(diatonic_ord(self) + accidental.0),
    {
        self.chromatic().with(accidental)
    }

    /// The letter named by `s`: a single letter character, either case.
    pub fn parse(s: &str) -> (r: Option<Self>)
        ensures
            r == diatonic_of_text(s@),
    {
        if s.unicode_len() == 1 {
            Self::from_char(s.get_char(0))
        } else {
            None
        }
    }

    /// The letter named by the single character `c`.
    pub(crate) fn from_char(c: char) -> (r: Option<Self>)
        ensures
            r == diatonic_of_char(c),
    {
        if c == 'C' || c == 'c' {
            Some(Diatonic::C)
        } else if c == 'D' || c == 'd' {
            Some(Diatonic::D)
        } else if c == 'E' || c == 'e' {
            Some(Diatonic::E)
        } else if c == 'F' || c == 'f' {
            Some(Diatonic::F)
        } else if c == 'G' || c == 'g' {
            Some(Diatonic::G)
        } else if c == 'A' || c == 'a' {
            Some(Diatonic::A)
        } else if c == 'B' || c == 'b' {
            Some(Diatonic::B)
        } else {
            None
        }
    }
}

impl From<Diatonic> for Chromatic {
    /// A letter converts to the chromatic class at its offset.
    fn from(note: Diatonic) -> (r: Self) {
        note.chromatic()
    }
}

impl vstd::std_specs::convert::FromSpecImpl<Diatonic> for Chromatic {
    open spec fn obeys_from_spec() -> bool {
        true
    }

    open spec fn from_spec(v: Diatonic) -> Self {
        wrap_chromatic(diatonic_ord(v))
    }
}

impl From<Diatonic> for isize {
    /// A letter converts to its raw chromatic offset.
    fn from(note: Diatonic) -> (r: Self) {
        note.ord()
    }
}

impl vstd::std_specs::convert::FromSpecImpl<Diatonic> for isize {
    open spec fn obeys_from_spec() -> bool {
        true
    }

    open spec fn from_spec(v: Diatonic) -> Self {
        diatonic_ord(v) as isize
    }
}

} // verus!
