//! The current-song registry and its change detection.
//!
//! At most one song is current at a time. Replacing it raises a dirty
//! flag that the per-tick processing pass consumes exactly once: on a
//! change the metronome's timers are re-targeted to the new song's
//! timing data, and every pass reports what it did, so a missing song
//! is an explicit, observable no-op rather than a silent one.

use vstd::prelude::*;
use crate::metronome::{spec_metronome_updated, Metronome};
use crate::timing::{AudioError, AudioInfo};

verus! {

/// One selectable song: an opaque handle into the audio library's
/// asset store, and the timing data the metronome derives from.
#[derive(Clone, Copy, Debug, PartialEq)]
pub struct Song {
    pub id: u64,
    pub info: AudioInfo,
}

/// The registry holding the song playback currently refers to.
#[derive(Clone, Copy, Debug, PartialEq)]
pub struct CurrentSong {
    pub song: Option<Song>,
    /// Raised by every replacement and consumed once per processing
    /// pass; a fresh registry reports its initial value once too.
    pub dirty: bool,
}

/// What one synchronisation pass did.
#[derive(Clone, Copy, Debug, PartialEq, Eq, Structural)]
pub enum SyncOutcome {
    /// The registry had changed and the metronome was re-targeted.
    Updated,
    /// The registry had changed but holds no song; nothing to apply.
    NoActiveSong,
    /// The registry had not changed since the last pass.
    Unchanged,
}

impl CurrentSong {
    /// Make `song` the current one; dependents will see the change on
    /// the next pass.
    pub fn set(&mut self, song: Song)
        ensures
            *final(self) == (CurrentSong { song: Some(song), dirty: true }),
    {
        self.song = Some(song);
        self.dirty = true;
    }

    /// The current song, or `NoActiveSong` when none is registered.
    pub fn current(&self) -> (r: Result<Song, AudioError>)
        ensures
            r == match self.song {
                Some(s) => Ok::<Song, AudioError>(s),
                None => Err::<Song, AudioError>(AudioError::NoActiveSong),
            },
    {
        match &self.song {
            Some(s) => Ok(*s),
            None => Err(AudioError::NoActiveSong),
        }
    }
}

impl Default for CurrentSong {
    /// No song selected; the initial value still counts as a change,
    /// so the first pass observes it once.
    fn default() -> (c: Self)
        ensures
            c == (CurrentSong { song: None::<Song>, dirty: true }),
    {
        CurrentSong { song: None, dirty: true }
    }
}

/// The metronome to spawn at startup: built from the current song's
/// timing data, or from the default (all timers disabled) when no song
/// is selected yet.
pub fn startup_metronome(current: &CurrentSong) -> (m: Metronome)
    ensures
        m == match current.song {
            Some(s) => crate::metronome::fresh_metronome(s.info),
            None => crate::metronome::fresh_metronome(AudioInfo {
                tempo: crate::timing::Tempo(0u32),
                metre: crate::timing::Metre { top: 0u8, bottom: 0u8 },
                intro: None::<crate::timing::AudioLength>,
                body: crate::timing::AudioLength(0u64),
                outro: None::<crate::timing::AudioLength>,
            }),
        },
        m.wf(),
{
    match &current.song {
        Some(song) => Metronome::new(&song.info),
        None => Metronome::default(),
    }
}

/// One per-tick synchronisation pass: when the registry changed since
/// the last pass and holds a song, re-target the metronome to that
/// song's timing data. The change is consumed either way, so
/// dependents are notified exactly once per change, not once per read.
pub fn sync_note_timers(current: &mut CurrentSong, metronome: &mut Metronome) -> (r: SyncOutcome)
    requires
        old(metronome).wf(),
    ensures
        final(current).song == old(current).song,
        !final(current).dirty,
        !old(current).dirty ==> r == SyncOutcome::Unchanged && *final(metronome) == *old(
            metronome,
        ),
        old(current).dirty && old(current).song is None ==> r == SyncOutcome::NoActiveSong
            && *final(metronome) == *old(metronome),
        old(current).song matches Some(s) ==> (old(current).dirty ==> r == SyncOutcome::Updated
            && *final(metronome) == spec_metronome_updated(*old(metronome), s.info)),
        final(metronome).wf(),
{
    if !current.dirty {
        return SyncOutcome::Unchanged;
    }
    current.dirty = false;
    match &current.song {
        Some(song) => {
            let info = song.info;
            metronome.update(&info);
            SyncOutcome::Updated
        },
        None => SyncOutcome::NoActiveSong,
    }
}

} // verus!
