//! Octave indices: signed, unbounded, ordered numerically.

use vstd::prelude::*;
use crate::numeral::{int_text, int_text_of, int_text_value, parse_int_in};

verus! {

/// A signed octave index. Octave 4 holds middle C; negative octaves are
/// meaningful (MIDI note 0 lies in octave -1).
#[derive(Clone, Copy, Debug, Eq, Ord, PartialEq, PartialOrd, Structural)]
pub struct Octave(pub isize);

/// The octave denoted by a piece of text: a signed decimal numeral within
/// the machine range of an octave index.
pub open spec fn octave_of_text(s: Seq<char>) -> Option<Octave> {
    match int_text_value(s) {
        Some(v) => if isize::MIN <= v <= isize::MAX {
            Some(Octave(v as isize))
        } else {
            None
        },
        None => None,
    }
}

impl Octave {
    /// The octave with the given index.
    pub fn new(octave: isize) -> (r: Self)
        ensures
            r == Octave(octave),
    {
        Octave(octave)
    }

    /// The numeric index of this octave.
    pub fn numeric(&self) -> (r: isize)
        ensures
            r == self.0,
    {
        self.0
    }

    /// The octave named by `s`: a signed decimal numeral. Text that is not
    /// a numeral, or whose value does not fit an octave index, yields
    /// `None`.
    pub fn parse(s: &str) -> (r: Option<Self>)
        ensures
            r == octave_of_text(s@),
    {
        match parse_int_in(s, isize::MIN as i128, isize::MAX as i128) {
            Some(v) => Some(Octave(v as isize)),
            None => None,
        }
    }

    /// The decimal text of this octave's index.
    pub fn to_text(&self) -> (r: String)
        ensures
            r@ == int_text(self.0 as int),
    {
        int_text_of(self.0 as i128)
    }
}

impl From<isize> for Octave {
    /// A raw index converts to the octave it names.
    fn from(octave: isize) -> (r: Self) {
        Octave(octave)
    }
}

impl vstd::std_specs::convert::FromSpecImpl<isize> for Octave {
    open spec fn obeys_from_spec() -> bool {
        true
    }

    open spec fn from_spec(v: isize) -> Self {
        Octave(v)
    }
}

impl From<Octave> for isize {
    /// An octave converts to its raw index.
    fn from(octave: Octave) -> (r: Self) {
        octave.0
    }
}

impl vstd::std_specs::convert::FromSpecImpl<Octave> for isize {
    open spec fn obeys_from_spec() -> bool {
        true
    }

    open spec fn from_spec(v: Octave) -> Self {
        v.0
    }
}

} // verus!
