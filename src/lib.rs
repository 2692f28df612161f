//! Roll scheduling for a decelerating "wheel" over a shuffled list, the
//! speed model that drives it, a stop signal, sound pools and the audio
//! coordinator that sequences roll music and the stop sound.
//!
//! Speeds and positions are fixed-point: one item is `SPEED_SCALE` units.
//! Probabilities are parts of `PROBABILITY_SCALE`.

mod rng;
mod text;
pub mod config;
pub mod roll;
pub mod stop_signal;
pub mod pool;
pub mod audio;
pub mod paths;
pub mod devices;
pub mod randomizer;

pub use crate::config::{Config, Direction, SpeedRange, PROBABILITY_SCALE, SPEED_SCALE};
pub use crate::roll::{window_indices, RollError, RollSession, TickOutcome, WINDOW_SIZE};
pub use crate::stop_signal::StopSignal;
pub use crate::pool::{ListTracks, SoundPool};
pub use crate::audio::{AudioCommand, AudioCoordinator, AudioEvent, Completion, PlaybackState, FADE_OUT_MS};
pub use crate::randomizer::Randomizer;
pub use crate::devices::{find_device_index, list_audio_devices, DeviceInfo};
pub use crate::paths::{config_path, data_path, list_items, load_tracks, random_bg};
