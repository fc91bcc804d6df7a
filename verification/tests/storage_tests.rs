use charmed::error::ErrorKind;
use charmed::storage::{
    copy_text, failure_kind, load_alarms, load_config, startup, AppConfig,
    StorageStep, Stored, ALARMS_FILE, CONFIG_FILE,
};
use charmed::AlarmEntry;

fn record(id: &str) -> AlarmEntry {
    AlarmEntry {
        id: id.to_string(),
        time: "07:30".to_string(),
        playlist_name: "Morning".to_string(),
        playlist_uri: "spotify:playlist:abc".to_string(),
        volume: 55,
        active: true,
        days: vec!["Monday".to_string()],
        fade_in: true,
        fade_in_duration: 120,
    }
}

#[test]
fn the_documents_have_their_names() {
    assert_eq!(ALARMS_FILE, "alarms.json");
    assert_eq!(CONFIG_FILE, "config.json");
}

#[test]
fn each_step_fails_as_its_kind_of_error() {
    assert_eq!(failure_kind(StorageStep::CreateDirectory), ErrorKind::IoFailure);
    assert_eq!(failure_kind(StorageStep::Write), ErrorKind::IoFailure);
    assert_eq!(failure_kind(StorageStep::Read), ErrorKind::IoFailure);
    assert_eq!(failure_kind(StorageStep::Encode), ErrorKind::SerializationFailure);
    assert_eq!(failure_kind(StorageStep::Decode), ErrorKind::SerializationFailure);
}

#[test]
fn no_document_means_no_alarms() {
    let loaded = load_alarms(Stored::Missing).unwrap();
    assert!(loaded.is_empty());
}

#[test]
fn stored_alarms_are_loaded_as_they_are() {
    let loaded = load_alarms(Stored::Found(vec![record("a"), record("b")])).unwrap();
    assert_eq!(loaded.len(), 2);
    assert_eq!(loaded[0].id, "a");
    assert_eq!(loaded[1].id, "b");
    assert_eq!(loaded[0].time, "07:30");
    assert_eq!(loaded[0].volume, 55);
    assert_eq!(loaded[0].days, vec!["Monday".to_string()]);
    assert!(loaded[0].fade_in);
    assert_eq!(loaded[0].fade_in_duration, 120);
    assert!(load_alarms(Stored::Found(Vec::new())).unwrap().is_empty());
}

#[test]
fn alarms_that_cannot_be_read_or_decoded_are_an_error() {
    assert_eq!(
        load_alarms(Stored::Failed(StorageStep::Read)).unwrap_err(),
        ErrorKind::IoFailure
    );
    assert_eq!(
        load_alarms(Stored::Failed(StorageStep::Decode)).unwrap_err(),
        ErrorKind::SerializationFailure
    );
}

#[test]
fn the_default_settings() {
    let config = AppConfig::default();
    assert_eq!(config.spotify_client_id, None);
    assert_eq!(config.spotify_client_secret, None);
    assert_eq!(config.spotify_redirect_uri, "http://localhost:8888/callback");
    assert_eq!(config.default_volume, 80);
    assert_eq!(config.default_fade_in_duration, 300);
}

#[test]
fn settings_that_are_missing_or_malformed_are_the_defaults() {
    for found in [Stored::Missing, Stored::Failed(StorageStep::Decode)] {
        let config = load_config(found).unwrap();
        assert_eq!(config.spotify_client_id, None);
        assert_eq!(config.spotify_redirect_uri, "http://localhost:8888/callback");
        assert_eq!(config.default_volume, 80);
        assert_eq!(config.default_fade_in_duration, 300);
    }
}

#[test]
fn settings_that_cannot_be_read_are_an_error() {
    assert_eq!(
        load_config(Stored::Failed(StorageStep::Read)).unwrap_err(),
        ErrorKind::IoFailure
    );
}

#[test]
fn stored_settings_are_loaded_as_they_are() {
    let stored = AppConfig {
        spotify_client_id: Some("client".to_string()),
        spotify_client_secret: None,
        spotify_redirect_uri: "http://localhost:9000/back".to_string(),
        default_volume: 35,
        default_fade_in_duration: 60,
    };
    let copy = stored.clone();
    let config = load_config(Stored::Found(stored)).unwrap();
    assert_eq!(config.spotify_client_id, Some("client".to_string()));
    assert_eq!(config.spotify_client_secret, None);
    assert_eq!(config.spotify_redirect_uri, "http://localhost:9000/back");
    assert_eq!(config.default_volume, 35);
    assert_eq!(config.default_fade_in_duration, 60);
    assert_eq!(copy.spotify_client_id, config.spotify_client_id);
    assert_eq!(copy.spotify_redirect_uri, config.spotify_redirect_uri);
    assert_eq!(copy.default_volume, 35);
}

#[test]
fn a_text_that_may_be_missing_is_copied() {
    assert_eq!(copy_text(&None), None);
    assert_eq!(copy_text(&Some("x".to_string())), Some("x".to_string()));
}

#[test]
fn the_application_starts_with_the_loaded_alarms() {
    let state = startup(Ok(vec![record("a"), record("b")]));
    let alarms = state.get_alarms();
    assert_eq!(alarms.len(), 2);
    assert_eq!(alarms[0].id, "a");
    assert_eq!(alarms[1].id, "b");
}

#[test]
fn the_application_starts_empty_where_loading_failed() {
    assert!(startup(Err(ErrorKind::SerializationFailure)).get_alarms().is_empty());
    assert!(startup(Err(ErrorKind::IoFailure)).get_alarms().is_empty());
    assert!(startup(load_alarms(Stored::Missing)).get_alarms().is_empty());
    assert!(startup(load_alarms(Stored::Failed(StorageStep::Decode))).get_alarms().is_empty());
}
