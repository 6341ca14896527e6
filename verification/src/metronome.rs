//! The metronome: one repeating timer per subdivision.
//!
//! A `Metronome` owns exactly one `NoteTimer` per `NoteKind`, from the
//! measure down to the thirty-second note. Ticking forwards the elapsed
//! time to every timer and reports each one's fire count; updating
//! re-targets every timer to a new timing snapshot. The process owns a
//! single metronome for its lifetime: it is updated in place on a song
//! change, never recreated.

use vstd::prelude::*;
use crate::timer::{fresh_timer, spec_fires, spec_ticked, spec_updated, NoteTimer};
use crate::timing::{AudioInfo, NoteKind};

verus! {

/// One repeating timer per subdivision kind.
#[derive(Clone, Copy, Debug, PartialEq)]
pub struct Metronome {
    pub measure_note: NoteTimer,
    pub whole_note: NoteTimer,
    pub half_note: NoteTimer,
    pub quarter_note: NoteTimer,
    pub eighth_note: NoteTimer,
    pub sixteenth_note: NoteTimer,
    pub thirtysecond_note: NoteTimer,
}

/// How many times each timer fired during one tick.
#[derive(Clone, Copy, Debug, PartialEq, Eq, Structural)]
pub struct NoteFires {
    pub measure: u64,
    pub whole: u64,
    pub half: u64,
    pub quarter: u64,
    pub eighth: u64,
    pub sixteenth: u64,
    pub thirtysecond: u64,
}

/// The state of a freshly constructed metronome.
pub open spec fn fresh_metronome(info: AudioInfo) -> Metronome {
    Metronome {
        measure_note: fresh_timer(NoteKind::Measure, info),
        whole_note: fresh_timer(NoteKind::Whole, info),
        half_note: fresh_timer(NoteKind::Half, info),
        quarter_note: fresh_timer(NoteKind::Quarter, info),
        eighth_note: fresh_timer(NoteKind::Eighth, info),
        sixteenth_note: fresh_timer(NoteKind::Sixteenth, info),
        thirtysecond_note: fresh_timer(NoteKind::ThirtySecond, info),
    }
}

/// The metronome after forwarding one tick to every timer.
pub open spec fn spec_metronome_ticked(m: Metronome, delta: u64) -> Metronome {
    Metronome {
        measure_note: spec_ticked(m.measure_note, delta),
        whole_note: spec_ticked(m.whole_note, delta),
        half_note: spec_ticked(m.half_note, delta),
        quarter_note: spec_ticked(m.quarter_note, delta),
        eighth_note: spec_ticked(m.eighth_note, delta),
        sixteenth_note: spec_ticked(m.sixteenth_note, delta),
        thirtysecond_note: spec_ticked(m.thirtysecond_note, delta),
    }
}

/// The fire counts one tick produces.
pub open spec fn spec_metronome_fires(m: Metronome, delta: u64) -> NoteFires {
    NoteFires {
        measure: spec_fires(m.measure_note, delta) as u64,
        whole: spec_fires(m.whole_note, delta) as u64,
        half: spec_fires(m.half_note, delta) as u64,
        quarter: spec_fires(m.quarter_note, delta) as u64,
        eighth: spec_fires(m.eighth_note, delta) as u64,
        sixteenth: spec_fires(m.sixteenth_note, delta) as u64,
        thirtysecond: spec_fires(m.thirtysecond_note, delta) as u64,
    }
}

/// The metronome after re-targeting every timer to `info`.
pub open spec fn spec_metronome_updated(m: Metronome, info: AudioInfo) -> Metronome {
    Metronome {
        measure_note: spec_updated(m.measure_note, info),
        whole_note: spec_updated(m.whole_note, info),
        half_note: spec_updated(m.half_note, info),
        quarter_note: spec_updated(m.quarter_note, info),
        eighth_note: spec_updated(m.eighth_note, info),
        sixteenth_note: spec_updated(m.sixteenth_note, info),
        thirtysecond_note: spec_updated(m.thirtysecond_note, info),
    }
}

impl Metronome {
    /// Every timer is well formed and bound to its own subdivision.
    pub open spec fn wf(self) -> bool {
        &&& self.measure_note.wf() && self.measure_note.kind == NoteKind::Measure
        &&& self.whole_note.wf() && self.whole_note.kind == NoteKind::Whole
        &&& self.half_note.wf() && self.half_note.kind == NoteKind::Half
        &&& self.quarter_note.wf() && self.quarter_note.kind == NoteKind::Quarter
        &&& self.eighth_note.wf() && self.eighth_note.kind == NoteKind::Eighth
        &&& self.sixteenth_note.wf() && self.sixteenth_note.kind == NoteKind::Sixteenth
        &&& self.thirtysecond_note.wf() && self.thirtysecond_note.kind == NoteKind::ThirtySecond
    }

    /// Every timer can take a tick of `delta` nanoseconds without its
    /// accumulator leaving the machine range.
    pub open spec fn can_tick(self, delta: u64) -> bool {
        &&& self.measure_note.elapsed + delta <= u64::MAX
        &&& self.whole_note.elapsed + delta <= u64::MAX
        &&& self.half_note.elapsed + delta <= u64::MAX
        &&& self.quarter_note.elapsed + delta <= u64::MAX
        &&& self.eighth_note.elapsed + delta <= u64::MAX
        &&& self.sixteenth_note.elapsed + delta <= u64::MAX
        &&& self.thirtysecond_note.elapsed + delta <= u64::MAX
    }

    /// A metronome whose timers carry the durations derived from
    /// `info`; every timer disabled when `info` defines none.
    pub fn new(info: &AudioInfo) -> (m: Metronome)
        ensures
            m == fresh_metronome(*info),
            m.wf(),
    {
        Metronome {
            measure_note: NoteTimer::new(NoteKind::Measure, info),
            whole_note: NoteTimer::new(NoteKind::Whole, info),
            half_note: NoteTimer::new(NoteKind::Half, info),
            quarter_note: NoteTimer::new(NoteKind::Quarter, info),
            eighth_note: NoteTimer::new(NoteKind::Eighth, info),
            sixteenth_note: NoteTimer::new(NoteKind::Sixteenth, info),
            thirtysecond_note: NoteTimer::new(NoteKind::ThirtySecond, info),
        }
    }

    /// Forward `delta` nanoseconds to every timer; the timers are
    /// independent, so the order does not matter. Returns each timer's
    /// fire count.
    pub fn tick(&mut self, delta: u64) -> (fires: NoteFires)
        requires
            old(self).wf(),
            old(self).can_tick(delta),
        ensures
            *final(self) == spec_metronome_ticked(*old(self), delta),
            fires == spec_metronome_fires(*old(self), delta),
            final(self).wf(),
    {
        NoteFires {
            measure: self.measure_note.tick(delta),
            whole: self.whole_note.tick(delta),
            half: self.half_note.tick(delta),
            quarter: self.quarter_note.tick(delta),
            eighth: self.eighth_note.tick(delta),
            sixteenth: self.sixteenth_note.tick(delta),
            thirtysecond: self.thirtysecond_note.tick(delta),
        }
    }

    /// Re-target every timer to the durations of `info`, keeping each
    /// timer's progress as `NoteTimer::update` does.
    pub fn update(&mut self, info: &AudioInfo)
        requires
            old(self).wf(),
        ensures
            *final(self) == spec_metronome_updated(*old(self), *info),
            final(self).wf(),
    {
        self.measure_note.update(info);
        self.whole_note.update(info);
        self.half_note.update(info);
        self.quarter_note.update(info);
        self.eighth_note.update(info);
        self.sixteenth_note.update(info);
        self.thirtysecond_note.update(info);
    }
}

impl Default for Metronome {
    /// The metronome of the default (invalid) snapshot: every timer
    /// disabled until a song supplies real durations.
    fn default() -> (m: Self)
        ensures
            m == fresh_metronome(AudioInfo {
                tempo: crate::timing::Tempo(0u32),
                metre: crate::timing::Metre { top: 0u8, bottom: 0u8 },
                intro: None::<crate::timing::AudioLength>,
                body: crate::timing::AudioLength(0u64),
                outro: None::<crate::timing::AudioLength>,
            }),
            m.wf(),
    {
        Metronome::new(&AudioInfo::default())
    }
}

} // verus!
