use chrysopoeia::timer::NoteTimer;
use chrysopoeia::timing::{AudioInfo, AudioLength, Metre, NoteKind, Tempo};

fn info(bpm: u32, top: u8, bottom: u8) -> AudioInfo {
    AudioInfo {
        tempo: Tempo(bpm),
        metre: Metre { top, bottom },
        intro: None,
        body: AudioLength(0),
        outro: None,
    }
}

#[test]
fn new_timer_starts_at_rest() {
    let t = NoteTimer::new(NoteKind::Quarter, &info(120, 4, 4));
    assert_eq!(t.kind, NoteKind::Quarter);
    assert_eq!(t.period, 500_000_000);
    assert_eq!(t.elapsed, 0);
}

#[test]
fn four_exact_steps_fire_four_times_without_drift() {
    // 120 BPM, 4/4: quarter period 0.5s; four 0.5s steps fire once each.
    let mut t = NoteTimer::new(NoteKind::Quarter, &info(120, 4, 4));
    let mut fires: u64 = 0;
    for _ in 0..4 {
        fires += t.tick(500_000_000);
    }
    assert_eq!(fires, 4);
    assert_eq!(t.elapsed, 0);
}

#[test]
fn short_tick_accumulates_without_firing() {
    let mut t = NoteTimer::new(NoteKind::Quarter, &info(120, 4, 4));
    assert_eq!(t.tick(300_000_000), 0);
    assert_eq!(t.elapsed, 300_000_000);
    assert_eq!(t.tick(300_000_000), 1);
    assert_eq!(t.elapsed, 100_000_000);
}

#[test]
fn long_tick_fires_multiple_times() {
    let mut t = NoteTimer::new(NoteKind::Quarter, &info(120, 4, 4));
    assert_eq!(t.tick(1_750_000_000), 3);
    assert_eq!(t.elapsed, 250_000_000);
}

#[test]
fn invalid_tempo_disables_the_timer() {
    let mut t = NoteTimer::new(NoteKind::Quarter, &info(0, 4, 4));
    assert_eq!(t.period, 0);
    assert_eq!(t.tick(10_000_000_000), 0);
    assert_eq!(t.tick(u64::MAX), 0);
    assert_eq!(t.elapsed, 0);
}

#[test]
fn update_rescales_progress_to_the_new_period() {
    // At 40% of a 1s quarter note; doubling the tempo halves the period
    // and the timer stands at 40% of the new one.
    let mut t = NoteTimer::new(NoteKind::Quarter, &info(60, 4, 4));
    assert_eq!(t.period, 1_000_000_000);
    t.tick(400_000_000);
    t.update(&info(120, 4, 4));
    assert_eq!(t.period, 500_000_000);
    assert_eq!(t.elapsed, 200_000_000);
    // The remaining 60% of the new period passes before the next fire.
    assert_eq!(t.tick(299_999_999), 0);
    assert_eq!(t.tick(1), 1);
}

#[test]
fn update_to_invalid_info_disables() {
    let mut t = NoteTimer::new(NoteKind::Quarter, &info(120, 4, 4));
    t.tick(100_000_000);
    t.update(&info(0, 4, 4));
    assert_eq!(t.period, 0);
    assert_eq!(t.elapsed, 0);
    assert_eq!(t.tick(5_000_000_000), 0);
}

#[test]
fn update_revives_a_disabled_timer() {
    let mut t = NoteTimer::new(NoteKind::Quarter, &info(0, 4, 4));
    t.update(&info(120, 4, 4));
    assert_eq!(t.period, 500_000_000);
    assert_eq!(t.elapsed, 0);
    assert_eq!(t.tick(500_000_000), 1);
}

#[test]
fn update_keeps_progress_at_same_tempo() {
    let mut t = NoteTimer::new(NoteKind::Quarter, &info(120, 4, 4));
    t.tick(123_456_789);
    t.update(&info(120, 4, 4));
    assert_eq!(t.period, 500_000_000);
    assert_eq!(t.elapsed, 123_456_789);
}

#[test]
fn default_timer_is_disabled() {
    let mut t = NoteTimer::default();
    assert_eq!(t.kind, NoteKind::Whole);
    assert_eq!(t.period, 0);
    assert_eq!(t.tick(1_000_000_000), 0);
}
