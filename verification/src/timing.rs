//! Tempo, metre and note-duration math.
//!
//! A note duration is derived from the tempo (beats per minute) and the
//! metre (time signature). The formula is bottom-relative: a whole note
//! lasts `bottom` beats, each finer subdivision lasts half the previous
//! one, and a measure lasts `top` beats. All durations are in whole
//! nanoseconds, rounded down.

use vstd::prelude::*;
use vstd::arithmetic::div_mod::lemma_div_denominator;

verus! {

/// Nanoseconds in one minute; one beat lasts `NANOS_PER_MINUTE / bpm`.
pub const NANOS_PER_MINUTE: u64 = 60_000_000_000;

/// Tempo in beats per minute. A tempo of zero is degenerate: no
/// duration can be derived from it.
#[derive(Clone, Copy, Debug, PartialEq, Eq, Structural)]
pub struct Tempo(pub u32);

/// Time signature: `top` beats per measure, `bottom` names the note
/// value that carries one beat.
#[derive(Clone, Copy, Debug, PartialEq, Eq, Structural)]
pub struct Metre {
    pub top: u8,
    pub bottom: u8,
}

/// Length of a song section, in nanoseconds.
#[derive(Clone, Copy, Debug, PartialEq, Eq, Structural)]
pub struct AudioLength(pub u64);

/// Snapshot of a song's timing data: tempo, metre and section lengths.
#[derive(Clone, Copy, Debug, PartialEq)]
pub struct AudioInfo {
    pub tempo: Tempo,
    pub metre: Metre,
    pub intro: Option<AudioLength>,
    pub body: AudioLength,
    pub outro: Option<AudioLength>,
}

/// A musical subdivision; `Measure` spans one full measure.
#[derive(Clone, Copy, Debug, PartialEq, Eq, Structural)]
pub enum NoteKind {
    Whole,
    Half,
    Quarter,
    Eighth,
    Sixteenth,
    ThirtySecond,
    Measure,
}

/// Why a duration could not be derived, or a playback query answered.
#[derive(Clone, Copy, Debug, PartialEq, Eq, Structural)]
pub enum AudioError {
    /// The tempo is zero, so a beat has no finite length.
    InvalidTempo,
    /// The metre has a zero component.
    InvalidMetre,
    /// No song is currently registered.
    NoActiveSong,
}

impl Metre {
    /// Both components of the time signature are positive.
    pub open spec fn valid(self) -> bool {
        self.top > 0 && self.bottom > 0
    }
}

impl AudioInfo {
    /// Note durations can be derived: positive tempo, valid metre.
    pub open spec fn valid(self) -> bool {
        self.tempo.0 > 0 && self.metre.valid()
    }
}

impl Default for Tempo {
    /// The zero tempo, from which no duration can be derived.
    fn default() -> (t: Self)
        ensures
            t == (Tempo(0u32)),
    {
        Tempo(0)
    }
}

impl Default for Metre {
    /// The degenerate zero metre.
    fn default() -> (m: Self)
        ensures
            m == (Metre { top: 0u8, bottom: 0u8 }),
    {
        Metre { top: 0, bottom: 0 }
    }
}

impl Default for AudioLength {
    fn default() -> (l: Self)
        ensures
            l == (AudioLength(0u64)),
    {
        AudioLength(0)
    }
}

impl Default for AudioInfo {
    /// An invalid snapshot: zero tempo and metre, empty sections.
    fn default() -> (info: Self)
        ensures
            info == (AudioInfo {
                tempo: Tempo(0u32),
                metre: Metre { top: 0u8, bottom: 0u8 },
                intro: None::<AudioLength>,
                body: AudioLength(0u64),
                outro: None::<AudioLength>,
            }),
            !info.valid(),
    {
        AudioInfo {
            tempo: Tempo::default(),
            metre: Metre::default(),
            intro: None,
            body: AudioLength::default(),
            outro: None,
        }
    }
}

impl Default for NoteKind {
    fn default() -> (k: Self)
        ensures
            k == NoteKind::Whole,
    {
        NoteKind::Whole
    }
}

/// Nanoseconds in one whole note: `bottom` beats of `60s / tempo` each,
/// rounded down.
pub open spec fn whole_nanos(info: AudioInfo) -> int {
    (info.metre.bottom * NANOS_PER_MINUTE) / (info.tempo.0 as int)
}

/// Nanoseconds in one measure: `top` beats of `60s / tempo` each,
/// rounded down.
pub open spec fn measure_nanos(info: AudioInfo) -> int {
    (info.metre.top * NANOS_PER_MINUTE) / (info.tempo.0 as int)
}

/// Nanoseconds in one note of the given kind, rounded down.
pub open spec fn note_nanos(kind: NoteKind, info: AudioInfo) -> int {
    match kind {
        NoteKind::Whole => whole_nanos(info),
        NoteKind::Half => whole_nanos(info) / 2,
        NoteKind::Quarter => whole_nanos(info) / 4,
        NoteKind::Eighth => whole_nanos(info) / 8,
        NoteKind::Sixteenth => whole_nanos(info) / 16,
        NoteKind::ThirtySecond => whole_nanos(info) / 32,
        NoteKind::Measure => measure_nanos(info),
    }
}

/// What `NoteKind::length` returns: the duration for a valid snapshot,
/// and the precise error otherwise.
pub open spec fn spec_length(kind: NoteKind, info: AudioInfo) -> Result<u64, AudioError> {
    if info.tempo.0 == 0 {
        Err(AudioError::InvalidTempo)
    } else if !info.metre.valid() {
        Err(AudioError::InvalidMetre)
    } else {
        Ok(note_nanos(kind, info) as u64)
    }
}

/// Every note duration fits in a `u64` and is never negative.
pub proof fn lemma_note_nanos_bounds(kind: NoteKind, info: AudioInfo)
    requires
        info.valid(),
    ensures
        0 <= note_nanos(kind, info) <= 255 * NANOS_PER_MINUTE,
{
}

impl NoteKind {
    /// The real-time duration of one note of this kind, in nanoseconds,
    /// rounded down; fails exactly when the snapshot cannot define one.
    pub fn length(&self, info: &AudioInfo) -> (r: Result<u64, AudioError>)
        ensures
            r == spec_length(*self, *info),
    {
        if info.tempo.0 == 0 {
            return Err(AudioError::InvalidTempo);
        }
        if info.metre.top == 0 || info.metre.bottom == 0 {
            return Err(AudioError::InvalidMetre);
        }
        let tempo: u64 = info.tempo.0 as u64;
        let whole: u64 = (info.metre.bottom as u64) * NANOS_PER_MINUTE / tempo;
        match self {
            NoteKind::Whole => Ok(whole),
            NoteKind::Half => Ok(whole / 2),
            NoteKind::Quarter => Ok(whole / 4),
            NoteKind::Eighth => Ok(whole / 8),
            NoteKind::Sixteenth => Ok(whole / 16),
            NoteKind::ThirtySecond => Ok(whole / 32),
            NoteKind::Measure => Ok((info.metre.top as u64) * NANOS_PER_MINUTE / tempo),
        }
    }
}

/// Law: for every positive tempo and valid metre, a measure lasts
/// `top` beats and a whole note `bottom` beats (rounded down to the
/// nanosecond), and each subdivision halves the previous one.
pub proof fn lemma_note_length_cascade(info: AudioInfo)
    requires
        info.valid(),
    ensures
        note_nanos(NoteKind::Measure, info) == (info.metre.top * NANOS_PER_MINUTE) / (
        info.tempo.0 as int),
        note_nanos(NoteKind::Whole, info) == (info.metre.bottom * NANOS_PER_MINUTE) / (
        info.tempo.0 as int),
        note_nanos(NoteKind::Half, info) == note_nanos(NoteKind::Whole, info) / 2,
        note_nanos(NoteKind::Quarter, info) == note_nanos(NoteKind::Half, info) / 2,
        note_nanos(NoteKind::Eighth, info) == note_nanos(NoteKind::Quarter, info) / 2,
        note_nanos(NoteKind::Sixteenth, info) == note_nanos(NoteKind::Eighth, info) / 2,
        note_nanos(NoteKind::ThirtySecond, info) == note_nanos(NoteKind::Sixteenth, info) / 2,
{
    let w = whole_nanos(info);
    lemma_div_denominator(w, 2, 2);
    lemma_div_denominator(w, 4, 2);
    lemma_div_denominator(w, 8, 2);
    lemma_div_denominator(w, 16, 2);
}

} // verus!
