use vstd::prelude::*;

use crate::audio::{AudioCommand, AudioCoordinator, AudioEvent, PlaybackState};
use crate::config::Config;
use crate::pool::SoundPool;
use crate::roll::{RollError, RollSession, TickOutcome};
use crate::stop_signal::StopSignal;

verus! {

/// Everything a roll needs, in one place: the settings, the list being
/// rolled, the stop request, the audio coordinator and the two sound pools.
#[derive(Clone, Debug)]
pub struct Randomizer {
    pub config: Config,
    pub current_list: Option<String>,
    pub stop: StopSignal,
    pub audio: AudioCoordinator,
    pub roll_sounds: SoundPool,
    pub stop_sounds: SoundPool,
}

impl Randomizer {
    pub open spec fn well_formed(self) -> bool {
        self.config.well_formed()
    }

    /// A randomizer with `config` (its inverted ranges put in order), idle audio
    /// and no list.
    pub fn new(config: Config, roll_sounds: SoundPool, stop_sounds: SoundPool) -> (r: Randomizer)
        ensures
            r.well_formed(),
            r.config.speed_reduce == config.speed_reduce.spec_normalized(),
            r.config.speed_slow_reduce == config.speed_slow_reduce.spec_normalized(),
            r.config.speed_start == config.speed_start.spec_normalized(),
            r.config.speed_stop == config.speed_stop.spec_normalized(),
            r.config.music == config.music,
            r.config.reverse_chance == config.reverse_chance,
            r.config.speed_slow_limit == config.speed_slow_limit,
            r.current_list is None,
            !r.stop.requested,
            r.audio.state == PlaybackState::Idle,
            !r.audio.fading,
            r.roll_sounds == roll_sounds,
            r.stop_sounds == stop_sounds,
    {
        let mut config = config;
        config.normalize();
        Randomizer {
            config,
            current_list: None,
            stop: StopSignal::new(),
            audio: AudioCoordinator::new(),
            roll_sounds,
            stop_sounds,
        }
    }

    pub fn config(&self) -> (r: &Config)
        ensures
            r == self.config,
    {
        &self.config
    }

    /// Replaces the settings, with their inverted ranges put in order.
    pub fn set_config(&mut self, config: Config)
        ensures
            final(self).well_formed(),
            final(self).config.speed_reduce == config.speed_reduce.spec_normalized(),
            final(self).config.speed_slow_reduce == config.speed_slow_reduce.spec_normalized(),
            final(self).config.speed_start == config.speed_start.spec_normalized(),
            final(self).config.speed_stop == config.speed_stop.spec_normalized(),
            final(self).config.audio_device == config.audio_device,
            final(self).config.music == config.music,
            final(self).config.reverse_chance == config.reverse_chance,
            final(self).config.speed_slow_limit == config.speed_slow_limit,
            final(self).config.start_fullscreen == config.start_fullscreen,
            final(self).config.volume == config.volume,
            final(self).current_list == old(self).current_list,
            final(self).stop == old(self).stop,
            final(self).audio == old(self).audio,
            final(self).roll_sounds == old(self).roll_sounds,
            final(self).stop_sounds == old(self).stop_sounds,
    {
        let mut config = config;
        config.normalize();
        self.config = config;
    }

    /// Asks the current roll to come to a stop.
    pub fn stop_roll(&mut self)
        ensures
            final(self).stop.requested,
            final(self).config == old(self).config,
            final(self).current_list == old(self).current_list,
            final(self).audio == old(self).audio,
            final(self).roll_sounds == old(self).roll_sounds,
            final(self).stop_sounds == old(self).stop_sounds,
    {
        self.stop.request_stop();
    }

    /// Starts a roll of `list_name` over `items`: an empty list fails and
    /// changes nothing. Otherwise the stop request is cleared, the list
    /// becomes the current one, the items are shuffled into a new session, and
    /// with music on, roll music is drawn and asked for.
    pub fn roll(&mut self, list_name: String, items: Vec<String>) -> (r: Result<
        (RollSession, AudioCommand),
        RollError,
    >)
        requires
            old(self).well_formed(),
        ensures
            items@.len() == 0 <==> r is Err,
            r is Err ==> r == Err::<(RollSession, AudioCommand), RollError>(RollError::EmptyList)
                && *final(self) == *old(self),
            r matches Ok((s, cmd)) ==> {
                &&& final(self).well_formed()
                &&& final(self).config == old(self).config
                &&& final(self).roll_sounds == old(self).roll_sounds
                &&& final(self).stop_sounds == old(self).stop_sounds
                &&& final(self).current_list == Some(list_name)
                &&& !final(self).stop.requested
                &&& s.well_formed()
                &&& s.list_name == list_name
                &&& s.items@.to_multiset() == items@.to_multiset()
                &&& s.position == 0
                &&& old(self).config.speed_start.admits(s.speed as int)
                &&& exists|track: Option<String>|
                    (if old(self).config.music {
                        old(self).roll_sounds.is_pick(Some(list_name@), track)
                    } else {
                        track is None
                    }) && (final(self).audio, cmd) == #[trigger] old(self).audio.spec_handle(
                        AudioEvent::RollStarted { music: old(self).config.music, track },
                    )
            },
    {
        if items.len() == 0 {
            return Err(RollError::EmptyList);
        }
        let session = match RollSession::start(list_name.clone(), items, &self.config) {
            Ok(s) => s,
            Err(e) => {
                return Err(e);
            },
        };
        self.stop.reset();
        let command = self.audio.roll_started(self.config.music, &self.roll_sounds, &list_name);
        self.current_list = Some(list_name);
        Ok((session, command))
    }

    /// One tick of `session`, under the current stop request.
    pub fn tick(&self, session: &mut RollSession) -> (r: TickOutcome)
        requires
            self.well_formed(),
            old(session).well_formed(),
            !old(session).finished(),
        ensures
            final(session).well_formed(),
            final(session).items@ == old(session).items@,
            final(session).direction == old(session).direction,
            final(session).position as int == crate::roll::moved_position(
                old(session).position as int,
                old(session).speed as int,
                old(session).direction,
                old(session).items@.len() as int,
            ),
            exists|d: int, c: int|
                self.config.spec_decay_range(old(session).speed as int).admits(d)
                    && self.config.speed_stop.admits(c) && final(session).speed as int
                    == #[trigger] crate::roll::decayed_speed(
                    old(session).speed as int,
                    d,
                    crate::roll::requested_cap(self.stop.requested, c),
                ),
            r == TickOutcome::Stopped <==> final(session).finished(),
    {
        session.tick(&self.config, self.stop.is_requested())
    }

    /// The roll has stopped: the roll music fades out.
    pub fn finish_roll(&mut self) -> (r: AudioCommand)
        ensures
            (final(self).audio, r) == old(self).audio.spec_handle(AudioEvent::RollFinished),
            final(self).config == old(self).config,
            final(self).current_list == old(self).current_list,
            final(self).stop == old(self).stop,
            final(self).roll_sounds == old(self).roll_sounds,
            final(self).stop_sounds == old(self).stop_sounds,
    {
        self.audio.handle(AudioEvent::RollFinished)
    }

    /// The fade-out of stream `stream` is done: the stop sound of the
    /// current list is drawn and asked for.
    pub fn play_stop_sound(&mut self, stream: u64) -> (r: AudioCommand)
        ensures
            exists|track: Option<String>|
                old(self).stop_sounds.is_pick(
                    match old(self).current_list {
                        Some(n) => Some(n@),
                        None => None,
                    },
                    track,
                ) && (final(self).audio, r) == #[trigger] old(self).audio.spec_handle(
                    AudioEvent::SlideDone { stream, track },
                ),
            final(self).config == old(self).config,
            final(self).current_list == old(self).current_list,
            final(self).stop == old(self).stop,
            final(self).roll_sounds == old(self).roll_sounds,
            final(self).stop_sounds == old(self).stop_sounds,
    {
        let list_name = match &self.current_list {
            Some(n) => Some(n),
            None => None,
        };
        self.audio.slide_done(stream, &self.stop_sounds, list_name)
    }

    /// Stream `stream` has played to its end: playback returns to idle.
    pub fn stop_audio(&mut self, stream: u64) -> (r: AudioCommand)
        ensures
            (final(self).audio, r) == old(self).audio.spec_handle(
                AudioEvent::StreamEnded { stream },
            ),
            final(self).config == old(self).config,
            final(self).current_list == old(self).current_list,
            final(self).stop == old(self).stop,
            final(self).roll_sounds == old(self).roll_sounds,
            final(self).stop_sounds == old(self).stop_sounds,
    {
        self.audio.handle(AudioEvent::StreamEnded { stream })
    }

    /// An engine call failed: nothing plays for this step.
    pub fn engine_failed(&mut self) -> (r: AudioCommand)
        ensures
            (final(self).audio, r) == old(self).audio.spec_handle(AudioEvent::EngineFailed),
            final(self).config == old(self).config,
            final(self).current_list == old(self).current_list,
            final(self).stop == old(self).stop,
            final(self).roll_sounds == old(self).roll_sounds,
            final(self).stop_sounds == old(self).stop_sounds,
    {
        self.audio.handle(AudioEvent::EngineFailed)
    }
}

} // verus!
