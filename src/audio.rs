use vstd::prelude::*;

use crate::pool::SoundPool;

verus! {

/// Length of the roll music's fade-out, in milliseconds.
pub const FADE_OUT_MS: u32 = 1000;

/// What the audio engine is playing.
#[derive(Clone, Copy, Debug, PartialEq, Eq, Structural)]
pub enum PlaybackState {
    Idle,
    PlayingRollMusic,
    PlayingStopSound,
}

/// A one-shot notification that the engine delivers for a stream.
#[derive(Clone, Copy, Debug, PartialEq, Eq, Structural)]
pub enum Completion {
    /// A volume slide has reached its target.
    SlideDone,
    /// The stream has played to its end.
    StreamEnded,
}

/// What the engine is asked to do after an event.
#[derive(Clone, Debug)]
pub enum AudioCommand {
    Nothing,
    /// Release the current stream, load `path` as stream number `stream`
    /// (looped or once), register the one-shot `notify` and play it.
    Play { stream: u64, path: String, looped: bool, notify: Completion },
    /// Slide the volume of stream `stream` down to silence over `duration_ms`.
    FadeOut { stream: u64, duration_ms: u32 },
    /// Release the current stream.
    Release,
}

/// What happens around the audio: a roll starts or ends, the engine
/// notifies, or an engine call fails. Notifications carry the number of the
/// stream they were registered on; `track` is the pick for the next sound.
#[derive(Clone, Debug)]
pub enum AudioEvent {
    RollStarted { music: bool, track: Option<String> },
    RollFinished,
    SlideDone { stream: u64, track: Option<String> },
    StreamEnded { stream: u64 },
    EngineFailed,
}

/// The number given to the stream after `stream`.
pub open spec fn next_stream(stream: u64) -> u64 {
    if stream == u64::MAX {
        0
    } else {
        (stream + 1) as u64
    }
}

/// The music of a roll: looped, ended by a fade-out.
pub open spec fn is_roll_music_play(c: AudioCommand) -> bool {
    c matches AudioCommand::Play { looped: true, notify: Completion::SlideDone, .. }
}

/// The stop sound: played once, to its end.
pub open spec fn is_stop_sound_play(c: AudioCommand) -> bool {
    c matches AudioCommand::Play { looped: false, notify: Completion::StreamEnded, .. }
}

/// Sole owner of the playback state and of the current stream's number.
/// It decides; the caller performs the command on the engine.
#[derive(Clone, Copy, Debug, PartialEq, Eq, Structural)]
pub struct AudioCoordinator {
    pub state: PlaybackState,
    /// The roll music is fading out.
    pub fading: bool,
    /// Number of the current (or last) stream.
    pub stream: u64,
}

impl AudioCoordinator {
    /// The coordinator and the command after `event`.
    pub open spec fn spec_handle(self, event: AudioEvent) -> (AudioCoordinator, AudioCommand) {
        let idle = AudioCoordinator { state: PlaybackState::Idle, fading: false, stream: self.stream };
        match event {
            AudioEvent::RollStarted { music, track } => match track {
                Some(path) if music => {
                    let id = next_stream(self.stream);
                    (
                        AudioCoordinator {
                            state: PlaybackState::PlayingRollMusic,
                            fading: false,
                            stream: id,
                        },
                        AudioCommand::Play {
                            stream: id,
                            path,
                            looped: true,
                            notify: Completion::SlideDone,
                        },
                    )
                },
                _ => (self, AudioCommand::Nothing),
            },
            AudioEvent::RollFinished => if self.state == PlaybackState::PlayingRollMusic
                && !self.fading {
                (
                    AudioCoordinator { fading: true, ..self },
                    AudioCommand::FadeOut { stream: self.stream, duration_ms: FADE_OUT_MS },
                )
            } else {
                (self, AudioCommand::Nothing)
            },
            AudioEvent::SlideDone { stream, track } => if self.state
                == PlaybackState::PlayingRollMusic && self.fading && stream == self.stream {
                match track {
                    Some(path) => {
                        let id = next_stream(self.stream);
                        (
                            AudioCoordinator {
                                state: PlaybackState::PlayingStopSound,
                                fading: false,
                                stream: id,
                            },
                            AudioCommand::Play {
                                stream: id,
                                path,
                                looped: false,
                                notify: Completion::StreamEnded,
                            },
                        )
                    },
                    None => (idle, AudioCommand::Release),
                }
            } else {
                (self, AudioCommand::Nothing)
            },
            AudioEvent::StreamEnded { stream } => if self.state == PlaybackState::PlayingStopSound
                && stream == self.stream {
                (idle, AudioCommand::Release)
            } else {
                (self, AudioCommand::Nothing)
            },
            AudioEvent::EngineFailed => (idle, AudioCommand::Release),
        }
    }

    pub fn new() -> (r: AudioCoordinator)
        ensures
            r.state == PlaybackState::Idle,
            !r.fading,
            r.stream == 0,
    {
        AudioCoordinator { state: PlaybackState::Idle, fading: false, stream: 0 }
    }

    fn next_stream(&self) -> (r: u64)
        ensures
            r == next_stream(self.stream),
    {
        if self.stream == u64::MAX {
            0
        } else {
            self.stream + 1
        }
    }

    /// Takes `event` and returns what the engine must do.
    pub fn handle(&mut self, event: AudioEvent) -> (r: AudioCommand)
        ensures
            (*final(self), r) == old(self).spec_handle(event),
    {
        match event {
            AudioEvent::RollStarted { music, track } => {
                if music {
                    if let Some(path) = track {
                        let id = self.next_stream();
                        self.state = PlaybackState::PlayingRollMusic;
                        self.fading = false;
                        self.stream = id;
                        return AudioCommand::Play {
                            stream: id,
                            path,
                            looped: true,
                            notify: Completion::SlideDone,
                        };
                    }
                }
                AudioCommand::Nothing
            },
            AudioEvent::RollFinished => {
                if self.state == PlaybackState::PlayingRollMusic && !self.fading {
                    self.fading = true;
                    AudioCommand::FadeOut { stream: self.stream, duration_ms: FADE_OUT_MS }
                } else {
                    AudioCommand::Nothing
                }
            },
            AudioEvent::SlideDone { stream, track } => {
                if self.state == PlaybackState::PlayingRollMusic && self.fading && stream
                    == self.stream {
                    match track {
                        Some(path) => {
                            let id = self.next_stream();
                            self.state = PlaybackState::PlayingStopSound;
                            self.fading = false;
                            self.stream = id;
                            AudioCommand::Play {
                                stream: id,
                                path,
                                looped: false,
                                notify: Completion::StreamEnded,
                            }
                        },
                        None => {
                            self.state = PlaybackState::Idle;
                            self.fading = false;
                            AudioCommand::Release
                        },
                    }
                } else {
                    AudioCommand::Nothing
                }
            },
            AudioEvent::StreamEnded { stream } => {
                if self.state == PlaybackState::PlayingStopSound && stream == self.stream {
                    self.state = PlaybackState::Idle;
                    self.fading = false;
                    AudioCommand::Release
                } else {
                    AudioCommand::Nothing
                }
            },
            AudioEvent::EngineFailed => {
                self.state = PlaybackState::Idle;
                self.fading = false;
                AudioCommand::Release
            },
        }
    }

    /// A roll over `list_name` starts: with `music` on, draws roll music
    /// from `pool` and asks for it.
    pub fn roll_started(&mut self, music: bool, pool: &SoundPool, list_name: &String) -> (r:
        AudioCommand)
        ensures
            exists|track: Option<String>|
                (if music {
                    pool.is_pick(Some(list_name@), track)
                } else {
                    track is None
                }) && (*final(self), r) == #[trigger] old(self).spec_handle(
                    AudioEvent::RollStarted { music, track },
                ),
    {
        let track = if music {
            pool.random_sound(Some(list_name))
        } else {
            None
        };
        self.handle(AudioEvent::RollStarted { music, track })
    }

    /// The fade-out of stream `stream` has completed: draws the stop sound
    /// for `list_name` from `pool` and asks for it.
    pub fn slide_done(&mut self, stream: u64, pool: &SoundPool, list_name: Option<&String>) -> (r:
        AudioCommand)
        ensures
            exists|track: Option<String>|
                pool.is_pick(
                    match list_name {
                        Some(n) => Some(n@),
                        None => None,
                    },
                    track,
                ) && (*final(self), r) == #[trigger] old(self).spec_handle(
                    AudioEvent::SlideDone { stream, track },
                ),
    {
        let track = pool.random_sound(list_name);
        self.handle(AudioEvent::SlideDone { stream, track })
    }
}

} // verus!

verus! {

/// Any command that starts a stream.
pub open spec fn is_play(c: AudioCommand) -> bool {
    c is Play
}

pub open spec fn is_fade_out(c: AudioCommand) -> bool {
    c is FadeOut
}

/// The coordinator and the commands, one per event, after `events`.
pub open spec fn run(s: AudioCoordinator, events: Seq<AudioEvent>) -> (
    AudioCoordinator,
    Seq<AudioCommand>,
)
    decreases events.len(),
{
    if events.len() == 0 {
        (s, Seq::empty())
    } else {
        let prev = run(s, events.drop_last());
        let step = prev.0.spec_handle(events.last());
        (step.0, prev.1.push(step.1))
    }
}

/// The commands of a prefix of the events are a prefix of the commands,
/// and command `i` is the answer to event `i`.
proof fn lemma_run_prefix(s: AudioCoordinator, events: Seq<AudioEvent>, i: int)
    requires
        0 <= i < events.len(),
    ensures
        run(s, events).1.len() == events.len(),
        run(s, events).1.take(i) == run(s, events.take(i)).1,
        run(s, events).1[i] == run(s, events.take(i)).0.spec_handle(events[i]).1,
    decreases events.len(),
{
    lemma_run_len(s, events);
    let rest = events.drop_last();
    if i == events.len() - 1 {
        assert(events.take(i) =~= rest);
        assert(run(s, events).1.take(i) =~= run(s, rest).1);
    } else {
        lemma_run_prefix(s, rest, i);
        assert(rest.take(i) =~= events.take(i));
        assert(run(s, events).1.take(i) =~= run(s, rest).1.take(i));
    }
}

proof fn lemma_run_len(s: AudioCoordinator, events: Seq<AudioEvent>)
    ensures
        run(s, events).1.len() == events.len(),
    decreases events.len(),
{
    if events.len() > 0 {
        lemma_run_len(s, events.drop_last());
    }
}

/// From an idle start, while roll music plays, the last play command was
/// that roll music, and it is fading only if a fade-out followed it.
proof fn lemma_run_invariant(s: AudioCoordinator, events: Seq<AudioEvent>)
    requires
        s.state == PlaybackState::Idle,
        !s.fading,
    ensures
        ({
            let (t, cmds) = run(s, events);
            &&& cmds.len() == events.len()
            &&& t.fading ==> t.state == PlaybackState::PlayingRollMusic
            &&& t.state == PlaybackState::PlayingRollMusic ==> exists|j: int|
                0 <= j < cmds.len() && is_roll_music_play(#[trigger] cmds[j]) && (forall|m: int|
                    j < m < cmds.len() ==> !is_play(#[trigger] cmds[m])) && (t.fading ==> exists|
                    k: int,
                | j < k < cmds.len() && is_fade_out(#[trigger] cmds[k]))
        }),
    decreases events.len(),
{
    lemma_run_len(s, events);
    if events.len() > 0 {
        let rest = events.drop_last();
        lemma_run_invariant(s, rest);
        let (p, pcmds) = run(s, rest);
        let (t, c) = p.spec_handle(events.last());
        let cmds = pcmds.push(c);
        let n = pcmds.len() as int;
        assert(cmds[n] == c);
        if t.state == PlaybackState::PlayingRollMusic {
            if is_play(c) {
                assert(is_roll_music_play(cmds[n]));
                assert(forall|m: int| n < m < cmds.len() ==> !is_play(#[trigger] cmds[m]));
            } else {
                assert(p.state == PlaybackState::PlayingRollMusic);
                let j = choose|j: int|
                    0 <= j < pcmds.len() && is_roll_music_play(#[trigger] pcmds[j]) && (forall|
                        m: int,
                    | j < m < pcmds.len() ==> !is_play(#[trigger] pcmds[m])) && (p.fading ==> exists|
                        k: int,
                    | j < k < pcmds.len() && is_fade_out(#[trigger] pcmds[k]));
                assert(cmds[j] == pcmds[j]);
                assert forall|m: int| j < m < cmds.len() implies !is_play(#[trigger] cmds[m]) by {
                    if m < n {
                        assert(cmds[m] == pcmds[m]);
                    }
                }
                if t.fading {
                    if p.fading {
                        let k = choose|k: int| j < k < pcmds.len() && is_fade_out(#[trigger] pcmds[k]);
                        assert(cmds[k] == pcmds[k]);
                    } else {
                        assert(is_fade_out(cmds[n]));
                    }
                }
            }
        }
    }
}

/// Starting idle, a stop sound is played only in answer to the slide
/// notification of the current stream, and only after exactly one roll music
/// play and a fade-out of it: the last play before it was roll music, and a
/// fade-out came between the two.
pub proof fn lemma_stop_sound_follows_fade(s: AudioCoordinator, events: Seq<AudioEvent>, i: int)
    requires
        s.state == PlaybackState::Idle,
        !s.fading,
        0 <= i < events.len(),
        is_stop_sound_play(run(s, events).1[i]),
    ensures
        ({
            let cmds = run(s, events).1;
            let before = run(s, events.take(i)).0;
            &&& events[i] matches AudioEvent::SlideDone { stream, .. } && stream == before.stream
            &&& before.state == PlaybackState::PlayingRollMusic && before.fading
            &&& exists|j: int, k: int|
                0 <= j < k < i && is_roll_music_play(#[trigger] cmds[j]) && is_fade_out(
                    #[trigger] cmds[k],
                ) && forall|m: int| j < m < i ==> !is_play(#[trigger] cmds[m])
        }),
{
    lemma_run_prefix(s, events, i);
    let cmds = run(s, events).1;
    let pre = events.take(i);
    let (p, pcmds) = run(s, pre);
    lemma_run_invariant(s, pre);
    assert(p.state == PlaybackState::PlayingRollMusic && p.fading);
    let j = choose|j: int|
        0 <= j < pcmds.len() && is_roll_music_play(#[trigger] pcmds[j]) && (forall|m: int|
            j < m < pcmds.len() ==> !is_play(#[trigger] pcmds[m])) && (p.fading ==> exists|k: int|
            j < k < pcmds.len() && is_fade_out(#[trigger] pcmds[k]));
    let k = choose|k: int| j < k < pcmds.len() && is_fade_out(#[trigger] pcmds[k]);
    assert(cmds.take(i) == pcmds);
    assert(cmds[j] == pcmds[j]);
    assert(cmds[k] == pcmds[k]);
    assert forall|m: int| j < m < i implies !is_play(#[trigger] cmds[m]) by {
        assert(cmds[m] == pcmds[m]);
    }
}

} // verus!
