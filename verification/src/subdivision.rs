//! Subdivisions: rhythmic note values as power-of-two fractions of a whole
//! note.

use vstd::prelude::*;
use vstd::arithmetic::power2::{
    lemma2_to64, lemma2_to64_rest, lemma_pow2_adds, lemma_pow2_strictly_increases, pow2,
};
use vstd::string::*;
use core::cmp::Ordering;
use crate::duration::Duration;

verus! {

/// A rhythmic note value: `1 / 2^exponent` of a whole note. Exponent 0 is
/// the whole note (semibreve), 1 the half note (minim), and so on; the two
/// naming traditions, American and British, alias the same exponents, and
/// exponent 7 even carries two British names.
#[derive(Clone, Copy, Debug, Eq, PartialEq, Structural)]
pub struct Subdivision(pub usize);

/// The note-value glyph of a subdivision: the reserved musical symbols for
/// exponents 0 through 7, and a fallback square for anything finer.
pub open spec fn subdivision_symbol(e: int) -> Seq<char> {
    if e == 0 {
        seq!['\u{1d15d}']
    } else if e == 1 {
        seq!['\u{1d15e}']
    } else if e == 2 {
        seq!['\u{1d15f}']
    } else if e == 3 {
        seq!['\u{1d160}']
    } else if e == 4 {
        seq!['\u{1d161}']
    } else if e == 5 {
        seq!['\u{1d162}']
    } else if e == 6 {
        seq!['\u{1d163}']
    } else if e == 7 {
        seq!['\u{1d164}']
    } else {
        seq!['\u{25a1}']
    }
}

/// The subdivision named by a single note-value glyph.
pub open spec fn subdivision_of_char(c: char) -> Option<Subdivision> {
    if c == '\u{1d15d}' {
        Some(Subdivision(0))
    } else if c == '\u{1d15e}' {
        Some(Subdivision(1))
    } else if c == '\u{1d15f}' {
        Some(Subdivision(2))
    } else if c == '\u{1d160}' {
        Some(Subdivision(3))
    } else if c == '\u{1d161}' {
        Some(Subdivision(4))
    } else if c == '\u{1d162}' {
        Some(Subdivision(5))
    } else if c == '\u{1d163}' {
        Some(Subdivision(6))
    } else if c == '\u{1d164}' {
        Some(Subdivision(7))
    } else {
        None
    }
}

/// The subdivision denoted by a piece of text: exactly one glyph.
pub open spec fn subdivision_of_text(s: Seq<char>) -> Option<Subdivision> {
    if s.len() == 1 {
        subdivision_of_char(s[0])
    } else {
        None
    }
}

/// Two raised to the power `e`, computed by repeated doubling.
pub(crate) fn pow2_u128(e: usize) -> (r: u128)
    requires
        e < 64,
    ensures
        r == pow2(e as nat),
{
    let mut r: u128 = 1;
    let mut i: usize = 0;
    proof {
        lemma2_to64();
    }
    while i < e
        invariant
            i <= e < 64,
            r == pow2(i as nat),
        decreases e - i,
    {
        proof {
            lemma_pow2_adds(i as nat, 1);
            lemma2_to64();
            if i + 1 < 64 {
                lemma_pow2_strictly_increases((i + 1) as nat, 64);
            }
            lemma2_to64_rest();
        }
        r = r * 2;
        i = i + 1;
    }
    r
}

impl Subdivision {
    /// The whole note: exponent 0.
    pub fn whole_note() -> (r: Self)
        ensures
            r == Subdivision(0),
    {
        Subdivision(0)
    }

    /// The half note: exponent 1.
    pub fn half_note() -> (r: Self)
        ensures
            r == Subdivision(1),
    {
        Subdivision(1)
    }

    /// The quarter note: exponent 2.
    pub fn quarter_note() -> (r: Self)
        ensures
            r == Subdivision(2),
    {
        Subdivision(2)
    }

    /// The eighth note: exponent 3.
    pub fn x8th_note() -> (r: Self)
        ensures
            r == Subdivision(3),
    {
        Subdivision(3)
    }

    /// The sixteenth note: exponent 4.
    pub fn x16th_note() -> (r: Self)
        ensures
            r == Subdivision(4),
    {
        Subdivision(4)
    }

    /// The thirty-second note: exponent 5.
    pub fn x32nd_note() -> (r: Self)
        ensures
            r == Subdivision(5),
    {
        Subdivision(5)
    }

    /// The sixty-fourth note: exponent 6.
    pub fn x64th_note() -> (r: Self)
        ensures
            r == Subdivision(6),
    {
        Subdivision(6)
    }

    /// The hundred-twenty-eighth note: exponent 7.
    pub fn x128th_note() -> (r: Self)
        ensures
            r == Subdivision(7),
    {
        Subdivision(7)
    }

    /// The semibreve, the British name of the whole note.
    pub fn semibreve() -> (r: Self)
        ensures
            r == Subdivision(0),
    {
        Subdivision(0)
    }

    /// The minim, the British name of the half note.
    pub fn minim() -> (r: Self)
        ensures
            r == Subdivision(1),
    {
        Subdivision(1)
    }

    /// The crotchet, the British name of the quarter note.
    pub fn crotchet() -> (r: Self)
        ensures
            r == Subdivision(2),
    {
        Subdivision(2)
    }

    /// The quaver, the British name of the eighth note.
    pub fn quaver() -> (r: Self)
        ensures
            r == Subdivision(3),
    {
        Subdivision(3)
    }

    /// The semiquaver, the British name of the sixteenth note.
    pub fn semiquaver() -> (r: Self)
        ensures
            r == Subdivision(4),
    {
        Subdivision(4)
    }

    /// The demisemiquaver, the British name of the thirty-second note.
    pub fn demisemiquaver() -> (r: Self)
        ensures
            r == Subdivision(5),
    {
        Subdivision(5)
    }

    /// The hemidemisemiquaver, the British name of the sixty-fourth note.
    pub fn hemidemisemiquaver() -> (r: Self)
        ensures
            r == Subdivision(6),
    {
        Subdivision(6)
    }

    /// One British name of the hundred-twenty-eighth note.
    pub fn semihemidemisemiquaver() -> (r: Self)
        ensures
            r == Subdivision(7),
    {
        Subdivision(7)
    }

    /// The other British name of the hundred-twenty-eighth note: an alias
    /// of the same value, not a distinct subdivision.
    pub fn quasihemidemisemiquaver() -> (r: Self)
        ensures
            r == Subdivision(7),
    {
        Subdivision(7)
    }

    /// A subdivision of `1 / 2^exponent` of a whole note.
    pub fn new(exponent: usize) -> (r: Self)
        ensures
            r == Subdivision(exponent),
    {
        Subdivision(exponent)
    }

    /// The note-value glyph of this subdivision.
    pub fn name(&self) -> (r: &'static str)
        ensures
            r@ == subdivision_symbol(self.0 as int),
    {
        proof {
            reveal_strlit("\u{1d15d}");
            reveal_strlit("\u{1d15e}");
            reveal_strlit("\u{1d15f}");
            reveal_strlit("\u{1d160}");
            reveal_strlit("\u{1d161}");
            reveal_strlit("\u{1d162}");
            reveal_strlit("\u{1d163}");
            reveal_strlit("\u{1d164}");
            reveal_strlit("\u{25a1}");
        }
        if self.0 == 0 {
            "\u{1d15d}"
        } else if self.0 == 1 {
            "\u{1d15e}"
        } else if self.0 == 2 {
            "\u{1d15f}"
        } else if self.0 == 3 {
            "\u{1d160}"
        } else if self.0 == 4 {
            "\u{1d161}"
        } else if self.0 == 5 {
            "\u{1d162}"
        } else if self.0 == 6 {
            "\u{1d163}"
        } else if self.0 == 7 {
            "\u{1d164}"
        } else {
            "\u{25a1}"
        }
    }

    /// The exponent of this subdivision.
    pub fn exponent(&self) -> (r: usize)
        ensures
            r == self.0,
    {
        self.0
    }

    /// How many of this subdivision make a whole note: `2^exponent`. The
    /// count must fit the machine word.
    pub fn nth(&self) -> (r: usize)
        requires
            self.0 < 64,
            pow2(self.0 as nat) <= usize::MAX,
        ensures
            r == pow2(self.0 as nat),
    {
        let f = pow2_u128(self.0);
        f as usize
    }

    /// One of this subdivision, as a duration.
    pub fn to_duration(self) -> (r: Duration)
        ensures
            r == (Duration { length: 1, unit: self }),
    {
        Duration { length: 1, unit: self }
    }

    /// The subdivision named by `s`: a single note-value glyph.
    pub fn parse(s: &str) -> (r: Option<Self>)
        ensures
            r == subdivision_of_text(s@),
    {
        if s.unicode_len() != 1 {
            return None;
        }
        let c = s.get_char(0);
        if c == '\u{1d15d}' {
            Some(Subdivision(0))
        } else if c == '\u{1d15e}' {
            Some(Subdivision(1))
        } else if c == '\u{1d15f}' {
            Some(Subdivision(2))
        } else if c == '\u{1d160}' {
            Some(Subdivision(3))
        } else if c == '\u{1d161}' {
            Some(Subdivision(4))
        } else if c == '\u{1d162}' {
            Some(Subdivision(5))
        } else if c == '\u{1d163}' {
            Some(Subdivision(6))
        } else if c == '\u{1d164}' {
            Some(Subdivision(7))
        } else {
            None
        }
    }
}

impl From<usize> for Subdivision {
    /// A raw exponent converts to the subdivision `1 / 2^exponent`.
    fn from(exponent: usize) -> (r: Self) {
        Subdivision(exponent)
    }
}

impl vstd::std_specs::convert::FromSpecImpl<usize> for Subdivision {
    open spec fn obeys_from_spec() -> bool {
        true
    }

    open spec fn from_spec(v: usize) -> Self {
        Subdivision(v)
    }
}

impl From<Subdivision> for usize {
    /// A subdivision converts to its raw exponent.
    fn from(subdivision: Subdivision) -> (r: Self) {
        subdivision.0
    }
}

impl vstd::std_specs::convert::FromSpecImpl<Subdivision> for usize {
    open spec fn obeys_from_spec() -> bool {
        true
    }

    open spec fn from_spec(v: Subdivision) -> Self {
        v.0
    }
}

impl PartialOrd for Subdivision {
    /// Subdivisions are ordered descending in exponent: a smaller exponent
    /// is a longer note, and the longer note is the greater.
    fn partial_cmp(&self, other: &Self) -> (r: Option<Ordering>) {
        if other.0 < self.0 {
            Some(Ordering::Less)
        } else if other.0 == self.0 {
            Some(Ordering::Equal)
        } else {
            Some(Ordering::Greater)
        }
    }
}

impl vstd::std_specs::cmp::PartialOrdSpecImpl for Subdivision {
    open spec fn obeys_partial_cmp_spec() -> bool {
        true
    }

    open spec fn partial_cmp_spec(&self, other: &Self) -> Option<Ordering> {
        if other.0 < self.0 {
            Some(Ordering::Less)
        } else if other.0 == self.0 {
            Some(Ordering::Equal)
        } else {
            Some(Ordering::Greater)
        }
    }
}

} // verus!
