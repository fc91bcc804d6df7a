//! The music service as the library sees it: what is shown of its playlists
//! and devices, and what is decided before it is asked to play. The calls to
//! the service itself are left to the caller.

use vstd::prelude::*;
use vstd::string::*;
use crate::text::same_text;

verus! {

/// What every playlist reference starts with.
pub const PLAYLIST_PREFIX: &'static str = "spotify:playlist:";

/// The owner that is shown where the service names none.
pub const UNKNOWN_OWNER: &'static str = "Unknown";

/// Why the music service was not asked.
#[derive(Clone, Copy, Debug, PartialEq, Eq, Structural)]
pub enum SpotifyError {
    /// No client was set up: signing in was never begun.
    NotInitialised,
    /// Signing in was begun and not completed.
    NotAuthenticated,
    /// The user has no device on which the service is playing.
    NoActiveDevice,
}

/// A playlist of the user, for display.
#[derive(Debug)]
pub struct SpotifyPlaylist {
    pub id: String,
    pub name: String,
    pub uri: String,
    pub image_url: Option<String>,
    pub track_count: u32,
    pub owner: String,
}

/// A device of the user, for display.
#[derive(Debug)]
pub struct SpotifyDevice {
    pub id: String,
    pub name: String,
    pub device_type: String,
    pub is_active: bool,
    pub volume_percent: u8,
}

/// The reference of the playlist with the identifier `id`.
pub open spec fn uri_of(id: Seq<char>) -> Seq<char> {
    PLAYLIST_PREFIX@ + id
}

/// The identifier in a playlist reference: what follows the prefix, or the
/// whole text where it does not start with the prefix.
pub open spec fn id_of(uri: Seq<char>) -> Seq<char> {
    if PLAYLIST_PREFIX@.is_prefix_of(uri) {
        uri.skip(PLAYLIST_PREFIX@.len() as int)
    } else {
        uri
    }
}

/// The identifier of a playlist reference is the identifier it was made of.
pub proof fn law_reference_round_trip(id: Seq<char>)
    ensures
        id_of(uri_of(id)) == id,
{
    let uri = uri_of(id);
    assert(uri.subrange(0, PLAYLIST_PREFIX@.len() as int) =~= PLAYLIST_PREFIX@);
    assert(uri.skip(PLAYLIST_PREFIX@.len() as int) =~= id);
}

/// The reference of the playlist with the identifier `id`.
pub fn playlist_uri(id: &str) -> (uri: String)
    ensures
        uri@ == uri_of(id@),
{
    let mut uri = String::from_str(PLAYLIST_PREFIX);
    uri.append(id);
    uri
}

/// The identifier in a playlist reference.
pub fn playlist_id<'a>(uri: &'a str) -> (id: &'a str)
    ensures
        id@ == id_of(uri@),
{
    let prefix_len = PLAYLIST_PREFIX.unicode_len();
    let len = uri.unicode_len();
    if len >= prefix_len && same_text(uri.substring_char(0, prefix_len), PLAYLIST_PREFIX) {
        uri.substring_char(prefix_len, len)
    } else {
        uri
    }
}

impl SpotifyPlaylist {
    /// A playlist for display, made of what the service says of it: its
    /// reference is made of its identifier, its image is the first of its
    /// images, and an owner without a name is shown as unknown.
    pub fn new(
        id: String,
        name: String,
        first_image: Option<String>,
        track_count: u32,
        owner_name: Option<String>,
    ) -> (playlist: SpotifyPlaylist)
        ensures
            playlist.id == id,
            playlist.name == name,
            playlist.uri@ == uri_of(id@),
            playlist.image_url == first_image,
            playlist.track_count == track_count,
            playlist.owner@ == match owner_name {
                Some(owner) => owner@,
                None => UNKNOWN_OWNER@,
            },
    {
        let uri = playlist_uri(id.as_str());
        let owner = match owner_name {
            Some(owner) => owner,
            None => String::from_str(UNKNOWN_OWNER),
        };
        SpotifyPlaylist { id, name, uri, image_url: first_image, track_count, owner }
    }
}

impl SpotifyDevice {
    /// A device for display, made of what the service says of it: a device
    /// without an identifier has the empty one, and one without a volume is
    /// shown at 0. Of a volume only the lowest eight bits are kept.
    pub fn new(
        id: Option<String>,
        name: String,
        device_type: String,
        is_active: bool,
        volume_percent: Option<u32>,
    ) -> (device: SpotifyDevice)
        ensures
            device.id@ == match id {
                Some(text) => text@,
                None => Seq::<char>::empty(),
            },
            device.name == name,
            device.device_type == device_type,
            device.is_active == is_active,
            device.volume_percent as int == match volume_percent {
                Some(volume) => volume as int % 256,
                None => 0,
            },
    {
        let id = match id {
            Some(text) => text,
            None => String::new(),
        };
        let volume = match volume_percent {
            Some(volume) => (volume % 256) as u8,
            None => 0,
        };
        SpotifyDevice { id, name, device_type, is_active, volume_percent: volume }
    }
}

/// Whether the service can be asked: a client was set up, and its user is
/// signed in. The missing client is reported first.
pub fn session_ready(has_client: bool, authenticated: bool) -> (ready: Result<(), SpotifyError>)
    ensures
        ready == if !has_client {
            Err::<(), SpotifyError>(SpotifyError::NotInitialised)
        } else if !authenticated {
            Err::<(), SpotifyError>(SpotifyError::NotAuthenticated)
        } else {
            Ok::<(), SpotifyError>(())
        },
{
    if !has_client {
        Err(SpotifyError::NotInitialised)
    } else if !authenticated {
        Err(SpotifyError::NotAuthenticated)
    } else {
        Ok(())
    }
}

/// Whether one of the devices is active.
pub open spec fn any_active(devices: Seq<SpotifyDevice>) -> bool {
    exists|i: int| 0 <= i < devices.len() && (#[trigger] devices[i]).is_active
}

/// Whether one of the devices is active.
pub fn has_active_device(devices: &Vec<SpotifyDevice>) -> (active: bool)
    ensures
        active == any_active(devices@),
{
    let mut i: usize = 0;
    while i < devices.len()
        invariant
            i <= devices.len(),
            forall|j: int| 0 <= j < i ==> !(#[trigger] devices@[j]).is_active,
        decreases devices.len() - i,
    {
        if devices[i].is_active {
            return true;
        }
        i += 1;
    }
    false
}

/// The identifier of the playlist to start, given the user's devices and the
/// playlist's reference; `NoActiveDevice` where no device is active.
pub fn playback_target<'a>(devices: &Vec<SpotifyDevice>, playlist_uri: &'a str) -> (target: Result<
    &'a str,
    SpotifyError,
>)
    ensures
        target is Ok <==> any_active(devices@),
        target matches Ok(id) ==> id@ == id_of(playlist_uri@),
        target matches Err(e) ==> e == SpotifyError::NoActiveDevice,
{
    if has_active_device(devices) {
        Ok(playlist_id(playlist_uri))
    } else {
        Err(SpotifyError::NoActiveDevice)
    }
}

} // verus!
