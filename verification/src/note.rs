//! Notes: a pitch sounded for a duration.

use vstd::prelude::*;
use crate::duration::Duration;
use crate::pitch::Pitch;

verus! {

/// A pitch paired with a rhythmic length; it adds no invariant of its own.
#[derive(Clone, Copy, Debug, Eq, PartialEq)]
pub struct Note {
    pub pitch: Pitch,
    pub value: Duration,
}

impl Note {
    /// The note sounding `pitch` for `value`.
    pub fn new(pitch: Pitch, value: Duration) -> (r: Self)
        ensures
            r == (Note { pitch, value }),
    {
        Note { pitch, value }
    }
}

impl From<Note> for (Pitch, Duration) {
    /// A note converts to its pitch and duration.
    fn from(note: Note) -> (r: Self) {
        (note.pitch, note.value)
    }
}

impl vstd::std_specs::convert::FromSpecImpl<Note> for (Pitch, Duration) {
    open spec fn obeys_from_spec() -> bool {
        true
    }

    open spec fn from_spec(v: Note) -> Self {
        (v.pitch, v.value)
    }
}

impl From<(Pitch, Duration)> for Note {
    /// A pitch and a duration convert to the note sounding them.
    fn from(parts: (Pitch, Duration)) -> (r: Self) {
        Note { pitch: parts.0, value: parts.1 }
    }
}

impl vstd::std_specs::convert::FromSpecImpl<(Pitch, Duration)> for Note {
    open spec fn obeys_from_spec() -> bool {
        true
    }

    open spec fn from_spec(v: (Pitch, Duration)) -> Self {
        Note { pitch: v.0, value: v.1 }
    }
}

} // verus!
