//! The local tone that sounds where the music service cannot be reached: what
//! the player decides. Opening the sound device and feeding it is left to
//! the caller, who reports here what its sink says of itself.

use vstd::prelude::*;
use crate::registry::{clamp_volume, clamped};

verus! {

/// The pitch of the tone, in hertz.
pub const TONE_HERTZ: u32 = 440;

/// How long the tone sounds, in seconds.
pub const TONE_SECONDS: u64 = 30;

/// The level at which the tone starts, in hundredths of full volume.
pub const TONE_LEVEL: u8 = 80;

/// The gain that is put on the tone, in hundredths.
pub const TONE_GAIN: u8 = 50;

/// What a sink says of itself.
#[derive(Clone, Copy, Debug, PartialEq, Eq, Structural)]
pub struct SinkStatus {
    /// The sink was told to pause.
    pub paused: bool,
    /// The sink has nothing left to play.
    pub empty: bool,
}

/// Whether the tone is sounding: a sink is held, it is not paused, and it
/// has something left to play. `sink` is `None` where no sink is held.
pub fn is_playing(sink: Option<SinkStatus>) -> (playing: bool)
    ensures
        playing == (sink matches Some(s) && !s.paused && !s.empty),
{
    match sink {
        Some(status) => !status.paused && !status.empty,
        None => false,
    }
}

/// The level to set the sink to when the volume `volume_percent` is asked
/// for, in hundredths of full volume: the volume, or 100 where it is more.
/// `None` where no sink is held, and nothing is to be set.
pub fn set_alarm_volume(sink_held: bool, volume_percent: u8) -> (level: Option<u8>)
    ensures
        level == if sink_held {
            Some(clamped(volume_percent))
        } else {
            None
        },
{
    if sink_held {
        Some(clamp_volume(volume_percent))
    } else {
        None
    }
}

} // verus!
