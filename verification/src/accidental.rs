//! Accidentals: signed semitone shifts applied to a diatonic letter.

use vstd::prelude::*;
use vstd::string::*;

verus! {

/// A semitone shift applied to a letter name. The shift is unbounded; only
/// shifts in -2..=2 have a canonical symbol, the rest fall back to an
/// "unknown" glyph when formatted.
#[derive(Clone, Copy, Debug, Eq, Ord, PartialEq, PartialOrd, Structural)]
pub struct Accidental(pub isize);

/// The canonical symbol of an accidental with the given shift: double flat,
/// flat, natural, sharp and double sharp each have a reserved musical glyph;
/// any other shift formats as the fallback square.
pub open spec fn accidental_symbol(shift: int) -> Seq<char> {
    if shift == -2 {
        seq!['\u{1d12b}']
    } else if shift == -1 {
        seq!['\u{266d}']
    } else if shift == 0 {
        seq!['\u{266e}']
    } else if shift == 1 {
        seq!['\u{266f}']
    } else if shift == 2 {
        seq!['\u{1d12a}']
    } else {
        seq!['\u{25a1}']
    }
}

/// The accidental named by a single character: a canonical glyph or its
/// ASCII shorthand (`b` flat, `n` natural, `#`/`s` sharp, `x` double sharp).
pub open spec fn accidental_of_char(c: char) -> Option<Accidental> {
    if c == '\u{1d12b}' {
        Some(Accidental(-2isize))
    } else if c == '\u{266d}' || c == 'b' {
        Some(Accidental(-1isize))
    } else if c == '\u{266e}' || c == 'n' {
        Some(Accidental(0))
    } else if c == '\u{266f}' || c == '#' || c == 's' {
        Some(Accidental(1))
    } else if c == '\u{1d12a}' || c == 'x' {
        Some(Accidental(2))
    } else {
        None
    }
}

/// The accidental named by a two-character doubling: `bb` or two flats make
/// a double flat; `##`, `ss` or two sharps make a double sharp.
pub open spec fn accidental_of_pair(c0: char, c1: char) -> Option<Accidental> {
    if (c0 == 'b' && c1 == 'b') || (c0 == '\u{266d}' && c1 == '\u{266d}') {
        Some(Accidental(-2isize))
    } else if (c0 == '#' && c1 == '#') || (c0 == 's' && c1 == 's') || (c0 == '\u{266f}' && c1
        == '\u{266f}') {
        Some(Accidental(2))
    } else {
        None
    }
}

/// The accidental denoted by a piece of text: the empty string is natural,
/// one character is a glyph or shorthand, two characters are a doubling;
/// anything else does not name an accidental.
pub open spec fn accidental_of_text(s: Seq<char>) -> Option<Accidental> {
    if s.len() == 0 {
        Some(Accidental(0))
    } else if s.len() == 1 {
        accidental_of_char(s[0])
    } else if s.len() == 2 {
        accidental_of_pair(s[0], s[1])
    } else {
        None
    }
}

impl Accidental {
    /// The double flat: a shift of two semitones down.
    pub fn double_flat() -> (r: Self)
        ensures
            r.0 == -2,
    {
        Accidental(-2)
    }

    /// The flat: a shift of one semitone down.
    pub fn flat() -> (r: Self)
        ensures
            r.0 == -1,
    {
        Accidental(-1)
    }

    /// The natural: no shift at all.
    pub fn natural() -> (r: Self)
        ensures
            r.0 == 0,
    {
        Accidental(0)
    }

    /// The sharp: a shift of one semitone up.
    pub fn sharp() -> (r: Self)
        ensures
            r.0 == 1,
    {
        Accidental(1)
    }

    /// The double sharp: a shift of two semitones up.
    pub fn double_sharp() -> (r: Self)
        ensures
            r.0 == 2,
    {
        Accidental(2)
    }

    /// An accidental that shifts a letter by `pitch_shift` semitones.
    pub fn new(pitch_shift: isize) -> (r: Self)
        ensures
            r == Accidental(pitch_shift),
    {
        Accidental(pitch_shift)
    }

    /// The signed semitone shift this accidental applies.
    pub fn pitch_shift(self) -> (r: isize)
        ensures
            r == self.0,
    {
        self.0
    }

    /// The canonical symbol of this accidental.
    pub fn name(&self) -> (r: &'static str)
        ensures
            r@ == accidental_symbol(self.0 as int),
    {
        proof {
            reveal_strlit("\u{1d12b}");
            reveal_strlit("\u{266d}");
            reveal_strlit("\u{266e}");
            reveal_strlit("\u{266f}");
            reveal_strlit("\u{1d12a}");
            reveal_strlit("\u{25a1}");
        }
        if self.0 == -2 {
            "\u{1d12b}"
        } else if self.0 == -1 {
            "\u{266d}"
        } else if self.0 == 0 {
            "\u{266e}"
        } else if self.0 == 1 {
            "\u{266f}"
        } else if self.0 == 2 {
            "\u{1d12a}"
        } else {
            "\u{25a1}"
        }
    }

    /// Lower this accidental by a further `semitones` flats.
    pub fn lowered(self, semitones: isize) -> (r: Self)
        requires
            isize::MIN <= self.0 - semitones <= isize::MAX,
        ensures
            r.0 == self.0 - semitones,
    {
        Accidental(self.0 - semitones)
    }

    /// Raise this accidental by a further `semitones` sharps.
    pub fn raised(self, semitones: isize) -> (r: Self)
        requires
            isize::MIN <= self.0 + semitones <= isize::MAX,
        ensures
            r.0 == self.0 + semitones,
    {
        Accidental(self.0 + semitones)
    }

    /// The accidental named by `s`: the canonical glyphs, the ASCII
    /// shorthands, and the empty string (natural) are accepted; any other
    /// text yields `None`.
    pub fn parse(s: &str) -> (r: Option<Self>)
        ensures
            r == accidental_of_text(s@),
    {
        let n = s.unicode_len();
        if n == 0 {
            Some(Accidental(0))
        } else if n == 1 {
            Self::from_char(s.get_char(0))
        } else if n == 2 {
            let c0 = s.get_char(0);
            let c1 = s.get_char(1);
            if (c0 == 'b' && c1 == 'b') || (c0 == '\u{266d}' && c1 == '\u{266d}') {
                Some(Accidental(-2isize))
            } else if (c0 == '#' && c1 == '#') || (c0 == 's' && c1 == 's') || (c0 == '\u{266f}'
                && c1 == '\u{266f}') {
                Some(Accidental(2))
            } else {
                None
            }
        } else {
            None
        }
    }

    /// The accidental named by the single character `c`.
    fn from_char(c: char) -> (r: Option<Self>)
        ensures
            r == accidental_of_char(c),
    {
        if c == '\u{1d12b}' {
            Some(Accidental(-2isize))
        } else if c == '\u{266d}' || c == 'b' {
            Some(Accidental(-1isize))
        } else if c == '\u{266e}' || c == 'n' {
            Some(Accidental(0))
        } else if c == '\u{266f}' || c == '#' || c == 's' {
            Some(Accidental(1))
        } else if c == '\u{1d12a}' || c == 'x' {
            Some(Accidental(2))
        } else {
            None
        }
    }
}

impl From<isize> for Accidental {
    /// A raw semitone shift converts to the accidental applying it.
    fn from(accidental: isize) -> (r: Self) {
        Accidental(accidental)
    }
}

impl vstd::std_specs::convert::FromSpecImpl<isize> for Accidental {
    open spec fn obeys_from_spec() -> bool {
        true
    }

    open spec fn from_spec(v: isize) -> Self {
        Accidental(v)
    }
}

impl From<Accidental> for isize {
    /// An accidental converts to the raw semitone shift it applies.
    fn from(accidental: Accidental) -> (r: Self) {
        accidental.0
    }
}

impl vstd::std_specs::convert::FromSpecImpl<Accidental> for isize {
    open spec fn obeys_from_spec() -> bool {
        true
    }

    open spec fn from_spec(v: Accidental) -> Self {
        v.0
    }
}

/// Every canonical accidental symbol parses back to the accidental that
/// names it, so formatting followed by parsing is the identity on the five
/// canonical accidentals.
pub proof fn lemma_symbol_round_trip(a: Accidental)
    requires
        -2 <= a.0 <= 2,
    ensures
        accidental_of_text(accidental_symbol(a.0 as int)) == Some(a),
{
}

} // verus!
