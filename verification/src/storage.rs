//! What is done with the stored documents once they were looked for: which
//! failure of which step is which error, and what stands in for a document
//! that is missing or cannot be read. Reading and writing the files is left
//! to the caller.

use vstd::prelude::*;
use vstd::string::*;
use crate::entry::{AlarmEntry, AlarmView};
use crate::error::ErrorKind;
use crate::registry::{views_of, AppState};

verus! {

/// The name of the document that holds the alarms.
pub const ALARMS_FILE: &'static str = "alarms.json";

/// The name of the document that holds the configuration.
pub const CONFIG_FILE: &'static str = "config.json";

/// A step in storing or fetching a document.
#[derive(Clone, Copy, Debug, PartialEq, Eq, Structural)]
pub enum StorageStep {
    /// Making the data directory.
    CreateDirectory,
    /// Turning the values into the text of the document.
    Encode,
    /// Writing the document.
    Write,
    /// Reading the document.
    Read,
    /// Turning the text of the document into values.
    Decode,
}

/// The error that the failure of a step is reported as.
pub open spec fn failure_of(step: StorageStep) -> ErrorKind {
    match step {
        StorageStep::Encode | StorageStep::Decode => ErrorKind::SerializationFailure,
        _ => ErrorKind::IoFailure,
    }
}

/// The error that the failure of a step is reported as: a failure to encode
/// or decode is a `SerializationFailure`, every other an `IoFailure`.
pub fn failure_kind(step: StorageStep) -> (kind: ErrorKind)
    ensures
        kind == failure_of(step),
{
    match step {
        StorageStep::Encode => ErrorKind::SerializationFailure,
        StorageStep::Decode => ErrorKind::SerializationFailure,
        StorageStep::CreateDirectory => ErrorKind::IoFailure,
        StorageStep::Write => ErrorKind::IoFailure,
        StorageStep::Read => ErrorKind::IoFailure,
    }
}

/// What was found where a document was looked for.
pub enum Stored<T> {
    /// There is no such document.
    Missing,
    /// The document is there, and reading or decoding it failed.
    Failed(StorageStep),
    /// The document, decoded.
    Found(T),
}

/// The application's settings.
#[derive(Debug)]
pub struct AppConfig {
    pub spotify_client_id: Option<String>,
    pub spotify_client_secret: Option<String>,
    pub spotify_redirect_uri: String,
    /// From 0 to 100.
    pub default_volume: u8,
    /// In seconds.
    pub default_fade_in_duration: u16,
}

/// The settings as plain values: what an `AppConfig` stands for.
pub struct ConfigView {
    pub spotify_client_id: Option<Seq<char>>,
    pub spotify_client_secret: Option<Seq<char>>,
    pub spotify_redirect_uri: Seq<char>,
    pub default_volume: u8,
    pub default_fade_in_duration: u16,
}

/// The characters of a text that may be missing.
pub open spec fn text_of(text: Option<String>) -> Option<Seq<char>> {
    match text {
        Some(t) => Some(t@),
        None => None,
    }
}

/// The settings of an application that was never configured: no client, the
/// local redirect address, volume 80 and a fade-in of five minutes.
pub open spec fn default_config() -> ConfigView {
    ConfigView {
        spotify_client_id: None,
        spotify_client_secret: None,
        spotify_redirect_uri: "http://localhost:8888/callback"@,
        default_volume: 80,
        default_fade_in_duration: 300,
    }
}

impl View for AppConfig {
    type V = ConfigView;

    open spec fn view(&self) -> ConfigView {
        ConfigView {
            spotify_client_id: text_of(self.spotify_client_id),
            spotify_client_secret: text_of(self.spotify_client_secret),
            spotify_redirect_uri: self.spotify_redirect_uri@,
            default_volume: self.default_volume,
            default_fade_in_duration: self.default_fade_in_duration,
        }
    }
}

/// A copy of a text that may be missing.
pub fn copy_text(text: &Option<String>) -> (copy: Option<String>)
    ensures
        copy == *text,
{
    match text {
        Some(t) => Some(t.clone()),
        None => None,
    }
}

impl Clone for AppConfig {
    fn clone(&self) -> (copy: AppConfig)
        ensures
            copy@ == self@,
    {
        AppConfig {
            spotify_client_id: copy_text(&self.spotify_client_id),
            spotify_client_secret: copy_text(&self.spotify_client_secret),
            spotify_redirect_uri: self.spotify_redirect_uri.clone(),
            default_volume: self.default_volume,
            default_fade_in_duration: self.default_fade_in_duration,
        }
    }
}

impl Default for AppConfig {
    fn default() -> (config: AppConfig)
        ensures
            config@ == default_config(),
    {
        AppConfig {
            spotify_client_id: None,
            spotify_client_secret: None,
            spotify_redirect_uri: String::from_str("http://localhost:8888/callback"),
            default_volume: 80,
            default_fade_in_duration: 300,
        }
    }
}

/// The alarms to go on with, given what was found where the stored alarms
/// were looked for: none where there is no document, the stored ones where
/// they were decoded, and the step's error where reading or decoding failed.
pub fn load_alarms(found: Stored<Vec<AlarmEntry>>) -> (loaded: Result<Vec<AlarmEntry>, ErrorKind>)
    ensures
        match found {
            Stored::Missing => loaded matches Ok(alarms) && alarms@.len() == 0,
            Stored::Failed(step) => loaded matches Err(e) && e == failure_of(step),
            Stored::Found(stored) => loaded matches Ok(alarms) && alarms == stored,
        },
{
    match found {
        Stored::Missing => Ok(Vec::new()),
        Stored::Failed(step) => Err(failure_kind(step)),
        Stored::Found(stored) => Ok(stored),
    }
}

/// The settings to go on with, given what was found where the stored
/// settings were looked for: the defaults where there is no document or it
/// could not be decoded, the stored ones where they were decoded, and the
/// step's error where another step failed.
pub fn load_config(found: Stored<AppConfig>) -> (loaded: Result<AppConfig, ErrorKind>)
    ensures
        match found {
            Stored::Missing => loaded matches Ok(config) && config@ == default_config(),
            Stored::Failed(StorageStep::Decode) => loaded matches Ok(config) && config@
                == default_config(),
            Stored::Failed(step) => loaded matches Err(e) && e == failure_of(step),
            Stored::Found(stored) => loaded matches Ok(config) && config == stored,
        },
{
    match found {
        Stored::Missing => Ok(AppConfig::default()),
        Stored::Failed(StorageStep::Decode) => Ok(AppConfig::default()),
        Stored::Failed(step) => Err(failure_kind(step)),
        Stored::Found(stored) => Ok(stored),
    }
}

/// The registry that the application starts with, given how loading the
/// alarms ended: the loaded alarms, or no alarm where loading failed. A
/// failure to load never keeps the application from starting.
pub fn startup(loaded: Result<Vec<AlarmEntry>, ErrorKind>) -> (state: AppState)
    ensures
        match loaded {
            Ok(alarms) => state@ == views_of(alarms@),
            Err(_) => state@ == Seq::<AlarmView>::empty(),
        },
{
    let mut state = AppState::new();
    match loaded {
        Ok(alarms) => {
            state.restore(alarms);
        },
        Err(_) => {},
    }
    state
}

} // verus!
