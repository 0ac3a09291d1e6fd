//! A music-theory value library: pitch classes, accidentals, octaves,
//! durations, and MIDI note numbers, with verified conversions among them.
//!
//! The heart of the library is the arithmetic that bridges the diatonic
//! (7-letter, uneven-step) and chromatic (12-semitone, even-step) views of
//! pitch, with Euclidean wraparound, enharmonic equivalence, and
//! round-trippable text forms for the reserved musical symbols.

pub mod accidental;
pub mod chromatic;
pub mod diatonic;
pub mod duration;
pub mod midi_note;
pub mod note;
pub mod numeral;
pub mod octave;
pub mod pitch;
pub mod pitch_class;
pub mod subdivision;
pub mod tone;

pub use accidental::Accidental;
pub use chromatic::Chromatic;
pub use diatonic::Diatonic;
pub use duration::Duration;
pub use note::Note;
pub use subdivision::Subdivision;
pub use midi_note::MidiNote;
pub use pitch::Pitch;
pub use tone::Tone;
pub use octave::Octave;
pub use pitch_class::PitchClass;
