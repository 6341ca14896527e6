use chrysopoeia::metronome::Metronome;
use chrysopoeia::song::{startup_metronome, sync_note_timers, CurrentSong, Song, SyncOutcome};
use chrysopoeia::timing::{AudioError, AudioInfo, AudioLength, Metre, NoteKind, Tempo};

fn info(bpm: u32, top: u8, bottom: u8) -> AudioInfo {
    AudioInfo {
        tempo: Tempo(bpm),
        metre: Metre { top, bottom },
        intro: None,
        body: AudioLength(0),
        outro: None,
    }
}

#[test]
fn metronome_owns_one_timer_per_kind() {
    let m = Metronome::new(&info(120, 4, 4));
    assert_eq!(m.measure_note.kind, NoteKind::Measure);
    assert_eq!(m.whole_note.kind, NoteKind::Whole);
    assert_eq!(m.half_note.kind, NoteKind::Half);
    assert_eq!(m.quarter_note.kind, NoteKind::Quarter);
    assert_eq!(m.eighth_note.kind, NoteKind::Eighth);
    assert_eq!(m.sixteenth_note.kind, NoteKind::Sixteenth);
    assert_eq!(m.thirtysecond_note.kind, NoteKind::ThirtySecond);
    assert_eq!(m.measure_note.period, 2_000_000_000);
    assert_eq!(m.whole_note.period, 2_000_000_000);
    assert_eq!(m.thirtysecond_note.period, 62_500_000);
}

#[test]
fn tick_forwards_to_every_timer() {
    let mut m = Metronome::new(&info(120, 4, 4));
    let fires = m.tick(2_000_000_000);
    assert_eq!(fires.measure, 1);
    assert_eq!(fires.whole, 1);
    assert_eq!(fires.half, 2);
    assert_eq!(fires.quarter, 4);
    assert_eq!(fires.eighth, 8);
    assert_eq!(fires.sixteenth, 16);
    assert_eq!(fires.thirtysecond, 32);
    assert_eq!(m.quarter_note.elapsed, 0);
}

#[test]
fn update_forwards_to_every_timer() {
    let mut m = Metronome::new(&info(60, 4, 4));
    m.tick(1_000_000_000);
    m.update(&info(120, 4, 4));
    assert_eq!(m.whole_note.period, 2_000_000_000);
    // The whole note was at 25% of 4s; it stays at 25% of 2s.
    assert_eq!(m.whole_note.elapsed, 500_000_000);
    assert_eq!(m.quarter_note.period, 500_000_000);
}

#[test]
fn default_metronome_is_disabled() {
    let mut m = Metronome::default();
    assert_eq!(m.quarter_note.period, 0);
    let fires = m.tick(10_000_000_000);
    assert_eq!(fires.quarter, 0);
    assert_eq!(fires.measure, 0);
}

#[test]
fn startup_uses_the_current_song() {
    let mut current = CurrentSong::default();
    current.set(Song { id: 5, info: info(120, 4, 4) });
    let m = startup_metronome(&current);
    assert_eq!(m.quarter_note.period, 500_000_000);
}

#[test]
fn startup_without_a_song_is_disabled() {
    let current = CurrentSong::default();
    let m = startup_metronome(&current);
    assert_eq!(m.quarter_note.period, 0);
    assert_eq!(m.measure_note.period, 0);
}

#[test]
fn current_reports_no_active_song() {
    let current = CurrentSong::default();
    assert_eq!(current.current(), Err(AudioError::NoActiveSong));
}

#[test]
fn current_returns_the_registered_song() {
    let mut current = CurrentSong::default();
    let s = Song { id: 8, info: info(90, 3, 4) };
    current.set(s);
    assert_eq!(current.current(), Ok(s));
}

#[test]
fn sync_applies_a_change_exactly_once() {
    let mut current = CurrentSong::default();
    let mut m = Metronome::default();
    current.set(Song { id: 2, info: info(120, 4, 4) });
    assert_eq!(sync_note_timers(&mut current, &mut m), SyncOutcome::Updated);
    assert_eq!(m.quarter_note.period, 500_000_000);
    // The change was consumed: a second pass reports nothing new.
    assert_eq!(sync_note_timers(&mut current, &mut m), SyncOutcome::Unchanged);
}

#[test]
fn sync_without_a_song_is_an_observable_no_op() {
    let mut current = CurrentSong::default();
    let mut m = Metronome::new(&info(120, 4, 4));
    assert_eq!(sync_note_timers(&mut current, &mut m), SyncOutcome::NoActiveSong);
    assert_eq!(m.quarter_note.period, 500_000_000);
    assert_eq!(sync_note_timers(&mut current, &mut m), SyncOutcome::Unchanged);
}

#[test]
fn sync_keeps_timer_progress_across_a_song_change() {
    let mut current = CurrentSong::default();
    current.set(Song { id: 1, info: info(60, 4, 4) });
    let mut m = startup_metronome(&current);
    m.tick(400_000_000);
    assert_eq!(m.quarter_note.elapsed, 400_000_000);
    current.set(Song { id: 2, info: info(120, 4, 4) });
    assert_eq!(sync_note_timers(&mut current, &mut m), SyncOutcome::Updated);
    assert_eq!(m.quarter_note.period, 500_000_000);
    assert_eq!(m.quarter_note.elapsed, 200_000_000);
}
