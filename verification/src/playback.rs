//! What to play when an alarm rings: the alarm's playlist on the music
//! service where that can be reached, the local tone where it cannot.

use vstd::prelude::*;
use crate::entry::{AlarmEntry, AlarmView};

verus! {

/// What the player is to do next.
#[derive(Debug)]
pub enum PlaybackAction {
    /// Start the playlist on the music service.
    PlayRemote { playlist_uri: String, volume: u8, fade_in: bool, fade_in_duration: u16 },
    /// Start the local tone.
    PlayFallbackTone,
}

/// A player's action as a plain value.
pub enum ActionView {
    PlayRemote { playlist_uri: Seq<char>, volume: u8, fade_in: bool, fade_in_duration: u16 },
    PlayFallbackTone,
}

impl View for PlaybackAction {
    type V = ActionView;

    open spec fn view(&self) -> ActionView {
        match self {
            PlaybackAction::PlayRemote { playlist_uri, volume, fade_in, fade_in_duration } => {
                ActionView::PlayRemote {
                    playlist_uri: playlist_uri@,
                    volume: *volume,
                    fade_in: *fade_in,
                    fade_in_duration: *fade_in_duration,
                }
            },
            PlaybackAction::PlayFallbackTone => ActionView::PlayFallbackTone,
        }
    }
}

/// The first action for an alarm that rings: its playlist, with its volume
/// and fade-in as they are, where the music service has a signed-in user;
/// the local tone where it has none.
pub open spec fn first_action(alarm: AlarmView, authenticated: bool) -> ActionView {
    if authenticated {
        ActionView::PlayRemote {
            playlist_uri: alarm.playlist_uri,
            volume: alarm.volume,
            fade_in: alarm.fade_in,
            fade_in_duration: alarm.fade_in_duration,
        }
    } else {
        ActionView::PlayFallbackTone
    }
}

/// The first action for an alarm that rings.
pub fn dispatch(alarm: &AlarmEntry, authenticated: bool) -> (action: PlaybackAction)
    ensures
        action@ == first_action(alarm@, authenticated),
{
    if authenticated {
        PlaybackAction::PlayRemote {
            playlist_uri: alarm.playlist_uri.clone(),
            volume: alarm.volume,
            fade_in: alarm.fade_in,
            fade_in_duration: alarm.fade_in_duration,
        }
    } else {
        PlaybackAction::PlayFallbackTone
    }
}

/// An action that may be missing, as a plain value.
pub open spec fn view_of_action(action: Option<PlaybackAction>) -> Option<ActionView> {
    match action {
        Some(a) => Some(a@),
        None => None,
    }
}

/// The action that follows an attempt to start the playlist on the music
/// service: none where it started, the local tone where it failed.
pub open spec fn next_action(started: bool) -> Option<ActionView> {
    if started {
        None
    } else {
        Some(ActionView::PlayFallbackTone)
    }
}

/// The action that follows an attempt to start the playlist on the music
/// service.
pub fn after_remote(started: bool) -> (action: Option<PlaybackAction>)
    ensures
        view_of_action(action) == next_action(started),
{
    if started {
        None
    } else {
        Some(PlaybackAction::PlayFallbackTone)
    }
}

/// A ringing alarm is heard whatever the music service does: the local tone
/// is asked for where no user is signed in, and again where the playlist was
/// tried and did not start.
pub proof fn law_alarm_is_heard(alarm: AlarmView, authenticated: bool, started: bool)
    ensures
        !authenticated ==> first_action(alarm, authenticated) == ActionView::PlayFallbackTone,
        authenticated ==> first_action(alarm, authenticated) is PlayRemote,
        !started ==> next_action(started) == Some(ActionView::PlayFallbackTone),
{
}

} // verus!
