use chrysopoeia::playback::{
    process_batch, step, AudioEffect, Command, MetronomeState,
};
use chrysopoeia::song::Song;
use chrysopoeia::timing::{AudioInfo, AudioLength, Metre, Tempo};

fn song(id: u64) -> Song {
    Song {
        id,
        info: AudioInfo {
            tempo: Tempo(120),
            metre: Metre { top: 4, bottom: 4 },
            intro: None,
            body: AudioLength(0),
            outro: None,
        },
    }
}

#[test]
fn playback_starts_stopped() {
    assert_eq!(MetronomeState::default(), MetronomeState::Stopped);
}

#[test]
fn play_from_stopped_plays_and_notifies() {
    let tr = step(MetronomeState::Stopped, &Command::Play(song(3)));
    assert_eq!(tr.next, MetronomeState::Playing);
    assert_eq!(tr.effect, Some(AudioEffect::Play(3)));
    assert!(tr.notified);
}

#[test]
fn pause_from_playing_pauses_the_channel() {
    let tr = step(MetronomeState::Playing, &Command::Pause);
    assert_eq!(tr.next, MetronomeState::Paused);
    assert_eq!(tr.effect, Some(AudioEffect::Pause));
    assert!(tr.notified);
}

#[test]
fn resume_carries_no_channel_effect() {
    let tr = step(MetronomeState::Paused, &Command::Resume);
    assert_eq!(tr.next, MetronomeState::Playing);
    assert_eq!(tr.effect, None);
    assert!(tr.notified);
}

#[test]
fn stop_pauses_the_channel() {
    let tr = step(MetronomeState::Playing, &Command::Stop);
    assert_eq!(tr.next, MetronomeState::Stopped);
    assert_eq!(tr.effect, Some(AudioEffect::Pause));
    assert!(tr.notified);
}

#[test]
fn pause_twice_notifies_once() {
    let cmds = vec![Command::Pause, Command::Pause];
    let (state, effects, notices) = process_batch(MetronomeState::Playing, &cmds);
    assert_eq!(state, MetronomeState::Paused);
    assert_eq!(effects, vec![AudioEffect::Pause]);
    assert_eq!(notices, vec![MetronomeState::Paused]);
}

#[test]
fn pause_when_already_paused_is_a_no_op() {
    let tr = step(MetronomeState::Paused, &Command::Pause);
    assert_eq!(tr.next, MetronomeState::Paused);
    assert_eq!(tr.effect, None);
    assert!(!tr.notified);
}

#[test]
fn play_pause_resume_ordering() {
    // One play and one pause reach the channel, in that order; Resume
    // adds no call of its own and the batch ends playing.
    let a = song(11);
    let cmds = vec![Command::Play(a), Command::Pause, Command::Resume];
    let (state, effects, notices) = process_batch(MetronomeState::Stopped, &cmds);
    assert_eq!(state, MetronomeState::Playing);
    assert_eq!(effects, vec![AudioEffect::Play(11), AudioEffect::Pause]);
    assert_eq!(
        notices,
        vec![
            MetronomeState::Playing,
            MetronomeState::Paused,
            MetronomeState::Playing,
        ]
    );
}

#[test]
fn later_command_overrides_earlier_one() {
    let cmds = vec![Command::Play(song(1)), Command::Stop];
    let (state, effects, _) = process_batch(MetronomeState::Stopped, &cmds);
    assert_eq!(state, MetronomeState::Stopped);
    assert_eq!(effects, vec![AudioEffect::Play(1), AudioEffect::Pause]);
}

#[test]
fn empty_batch_changes_nothing() {
    let cmds: Vec<Command> = Vec::new();
    let (state, effects, notices) = process_batch(MetronomeState::Paused, &cmds);
    assert_eq!(state, MetronomeState::Paused);
    assert!(effects.is_empty());
    assert!(notices.is_empty());
}

#[test]
fn play_while_playing_is_a_no_op() {
    let tr = step(MetronomeState::Playing, &Command::Play(song(9)));
    assert_eq!(tr.next, MetronomeState::Playing);
    assert_eq!(tr.effect, None);
    assert!(!tr.notified);
}
