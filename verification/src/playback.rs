//! The playback state machine and its command protocol.
//!
//! Playback is one of `Stopped`, `Paused` or `Playing`, driven by a
//! FIFO batch of commands processed strictly in arrival order. A
//! command names a target state; the transition is applied, the audio
//! channel effect issued, and one state-change notification emitted,
//! only when the target differs from the current state, so repeated
//! identical commands are no-ops on everything observable. `Resume`
//! carries no channel effect of its own: the channel resumes by itself.
//! `Stop` pauses the channel, as the audio layer has no separate stop
//! call.

use vstd::prelude::*;
use crate::song::Song;

verus! {

/// The externally observable status of the metronome's audio output.
#[derive(Clone, Copy, Debug, PartialEq, Eq, Hash, Structural)]
pub enum MetronomeState {
    Stopped,
    Paused,
    Playing,
}

/// One playback command, submitted through an ordered FIFO queue.
#[derive(Clone, Copy, Debug, PartialEq)]
pub enum Command {
    /// Start playing the given song.
    Play(Song),
    Pause,
    Resume,
    Stop,
}

/// A fire-and-forget intent issued to the external audio channel.
#[derive(Clone, Copy, Debug, PartialEq, Eq, Structural)]
pub enum AudioEffect {
    /// Start the song with this handle on the channel.
    Play(u64),
    /// Pause the channel; also how `Stop` reaches the channel.
    Pause,
}

/// What one command did: the state afterwards, the channel effect it
/// issued, and whether a state-change notification went out.
#[derive(Clone, Copy, Debug, PartialEq)]
pub struct Transition {
    pub next: MetronomeState,
    pub effect: Option<AudioEffect>,
    pub notified: bool,
}

/// The state a command steers towards, regardless of the current one.
pub open spec fn spec_target(cmd: Command) -> MetronomeState {
    match cmd {
        Command::Play(_) => MetronomeState::Playing,
        Command::Pause => MetronomeState::Paused,
        Command::Resume => MetronomeState::Playing,
        Command::Stop => MetronomeState::Stopped,
    }
}

/// The channel effect a command carries when it is not a no-op.
pub open spec fn spec_effect(cmd: Command) -> Option<AudioEffect> {
    match cmd {
        Command::Play(song) => Some(AudioEffect::Play(song.id)),
        Command::Pause => Some(AudioEffect::Pause),
        Command::Resume => None,
        Command::Stop => Some(AudioEffect::Pause),
    }
}

/// One step of the machine: a command whose target equals the current
/// state changes nothing and emits nothing; any other command moves to
/// its target, issues its effect, and notifies once.
pub open spec fn spec_step(state: MetronomeState, cmd: Command) -> Transition {
    if spec_target(cmd) == state {
        Transition { next: state, effect: None::<AudioEffect>, notified: false }
    } else {
        Transition { next: spec_target(cmd), effect: spec_effect(cmd), notified: true }
    }
}

/// A whole batch, folded over the commands in arrival order: the final
/// state, the channel effects in issue order, and the state-change
/// notifications in emission order.
pub open spec fn spec_batch(state: MetronomeState, cmds: Seq<Command>) -> (
    MetronomeState,
    Seq<AudioEffect>,
    Seq<MetronomeState>,
)
    decreases cmds.len(),
{
    if cmds.len() == 0 {
        (state, Seq::<AudioEffect>::empty(), Seq::<MetronomeState>::empty())
    } else {
        let prev = spec_batch(state, cmds.drop_last());
        let tr = spec_step(prev.0, cmds.last());
        (
            tr.next,
            match tr.effect {
                Some(e) => prev.1.push(e),
                None => prev.1,
            },
            if tr.notified {
                prev.2.push(tr.next)
            } else {
                prev.2
            },
        )
    }
}

/// Apply one command to the current state.
pub fn step(state: MetronomeState, cmd: &Command) -> (tr: Transition)
    ensures
        tr == spec_step(state, *cmd),
{
    let target: MetronomeState = match cmd {
        Command::Play(_) => MetronomeState::Playing,
        Command::Pause => MetronomeState::Paused,
        Command::Resume => MetronomeState::Playing,
        Command::Stop => MetronomeState::Stopped,
    };
    if target == state {
        Transition { next: state, effect: None, notified: false }
    } else {
        let effect: Option<AudioEffect> = match cmd {
            Command::Play(song) => Some(AudioEffect::Play(song.id)),
            Command::Pause => Some(AudioEffect::Pause),
            Command::Resume => None,
            Command::Stop => Some(AudioEffect::Pause),
        };
        Transition { next: target, effect, notified: true }
    }
}

/// Process one batch of commands in arrival order. Returns the final
/// state, the channel effects to issue in order, and the state-change
/// notifications in order.
pub fn process_batch(state: MetronomeState, cmds: &Vec<Command>) -> (r: (
    MetronomeState,
    Vec<AudioEffect>,
    Vec<MetronomeState>,
))
    ensures
        r.0 == spec_batch(state, cmds@).0,
        r.1@ == spec_batch(state, cmds@).1,
        r.2@ == spec_batch(state, cmds@).2,
{
    let mut cur: MetronomeState = state;
    let mut effects: Vec<AudioEffect> = Vec::new();
    let mut notices: Vec<MetronomeState> = Vec::new();
    let mut i: usize = 0;
    while i < cmds.len()
        invariant
            i <= cmds.len(),
            cur == spec_batch(state, cmds@.take(i as int)).0,
            effects@ == spec_batch(state, cmds@.take(i as int)).1,
            notices@ == spec_batch(state, cmds@.take(i as int)).2,
        decreases cmds.len() - i,
    {
        let tr = step(cur, &cmds[i]);
        match tr.effect {
            Some(e) => effects.push(e),
            None => (),
        }
        if tr.notified {
            notices.push(tr.next);
        }
        cur = tr.next;
        proof {
            assert(cmds@.take(i + 1).drop_last() =~= cmds@.take(i as int));
            assert(cmds@.take(i + 1).last() == cmds@[i as int]);
        }
        i = i + 1;
    }
    proof {
        assert(cmds@.take(cmds@.len() as int) =~= cmds@);
    }
    (cur, effects, notices)
}

impl Default for MetronomeState {
    /// Playback starts stopped.
    fn default() -> (s: Self)
        ensures
            s == MetronomeState::Stopped,
    {
        MetronomeState::Stopped
    }
}

/// Law: `Pause` is idempotent. The first `Pause` leaves the machine
/// paused; a second one in a row changes nothing, issues no channel
/// effect, and emits no second notification, so a pair of them
/// notifies at most once.
pub proof fn lemma_pause_idempotent(state: MetronomeState)
    ensures
        spec_step(state, Command::Pause).next == MetronomeState::Paused,
        spec_step(MetronomeState::Paused, Command::Pause).next == MetronomeState::Paused,
        spec_step(MetronomeState::Paused, Command::Pause).effect is None,
        !spec_step(MetronomeState::Paused, Command::Pause).notified,
        spec_batch(state, seq![Command::Pause, Command::Pause]).2.len() <= 1,
{
    let pair = seq![Command::Pause, Command::Pause];
    let one = seq![Command::Pause];
    let zero = Seq::<Command>::empty();
    assert(one.drop_last() =~= zero);
    assert(pair.drop_last() =~= one);
    assert(spec_batch(state, zero).0 == state);
    assert(spec_batch(state, one).0 == MetronomeState::Paused);
    assert(spec_batch(state, one).2.len() <= 1);
    assert(spec_batch(state, pair).2 == spec_batch(state, one).2);
}

/// Law: the batch `[Play(song), Pause, Resume]` from the stopped state
/// ends playing, and the channel receives exactly one play of `song`
/// followed by one pause, in that order; `Resume` reaches the channel
/// through no call of its own.
pub proof fn lemma_play_pause_resume(song: Song)
    ensures
        ({
            let r = spec_batch(
                MetronomeState::Stopped,
                seq![Command::Play(song), Command::Pause, Command::Resume],
            );
            &&& r.0 == MetronomeState::Playing
            &&& r.1 =~= seq![AudioEffect::Play(song.id), AudioEffect::Pause]
            &&& r.2 =~= seq![
                MetronomeState::Playing,
                MetronomeState::Paused,
                MetronomeState::Playing,
            ]
        }),
{
    let start = MetronomeState::Stopped;
    let c3 = seq![Command::Play(song), Command::Pause, Command::Resume];
    let c2 = seq![Command::Play(song), Command::Pause];
    let c1 = seq![Command::Play(song)];
    let c0 = Seq::<Command>::empty();
    assert(c1.drop_last() =~= c0);
    assert(c2.drop_last() =~= c1);
    assert(c3.drop_last() =~= c2);
    assert(spec_batch(start, c0).0 == start);
    assert(spec_batch(start, c1).0 == MetronomeState::Playing);
    assert(spec_batch(start, c1).1 =~= seq![AudioEffect::Play(song.id)]);
    assert(spec_batch(start, c1).2 =~= seq![MetronomeState::Playing]);
    assert(spec_batch(start, c2).0 == MetronomeState::Paused);
    assert(spec_batch(start, c2).1 =~= seq![AudioEffect::Play(song.id), AudioEffect::Pause]);
    assert(spec_batch(start, c2).2 =~= seq![MetronomeState::Playing, MetronomeState::Paused]);
    assert(spec_batch(start, c3).0 == MetronomeState::Playing);
    assert(spec_batch(start, c3).1 =~= seq![AudioEffect::Play(song.id), AudioEffect::Pause]);
    assert(spec_batch(start, c3).2 =~= seq![
        MetronomeState::Playing,
        MetronomeState::Paused,
        MetronomeState::Playing,
    ]);
}

} // verus!
