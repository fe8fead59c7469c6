use mpv_rpc::events::{FileMetadata, MpvEvent};
use mpv_rpc::translate::{
    translate, RawNotification, TranslateError, BUFFERING_PROPERTY_ID, PAUSE_PROPERTY_ID,
};

fn no_metadata() -> FileMetadata {
    FileMetadata { artist: None, album_artist: None, album: None, title: None, track: None }
}

fn args(tokens: &[&str]) -> Vec<String> {
    tokens.iter().map(|t| String::from(*t)).collect()
}

#[test]
fn file_loaded_translates_with_filename() {
    let raw = RawNotification::FileLoaded {
        filename: Some(String::from("song.mp3")),
        metadata: no_metadata(),
    };
    match translate(raw) {
        Ok(Some(MpvEvent::FileLoaded(info))) => {
            assert_eq!(info.filename, "song.mp3");
            assert!(info.metadata.artist.is_none());
        }
        other => panic!("unexpected translation: {:?}", other.map(|_| ())),
    }
}

#[test]
fn file_loaded_without_filename_is_an_error() {
    let raw = RawNotification::FileLoaded { filename: None, metadata: no_metadata() };
    assert_eq!(translate(raw).err(), Some(TranslateError::MissingFilename));
}

#[test]
fn playback_restart_becomes_seek() {
    let raw = RawNotification::PlaybackRestart { remaining_time: Some(42) };
    assert!(matches!(translate(raw), Ok(Some(MpvEvent::Seek(42)))));
}

#[test]
fn playback_restart_without_time_seeks_to_zero() {
    let raw = RawNotification::PlaybackRestart { remaining_time: None };
    assert!(matches!(translate(raw), Ok(Some(MpvEvent::Seek(0)))));
}

#[test]
fn pause_property_true_becomes_pause() {
    let raw = RawNotification::PropertyChange {
        id: PAUSE_PROPERTY_ID,
        value: Some(true),
        remaining_time: Some(7),
    };
    assert!(matches!(translate(raw), Ok(Some(MpvEvent::Pause(7)))));
}

#[test]
fn pause_property_false_becomes_play() {
    let raw = RawNotification::PropertyChange {
        id: PAUSE_PROPERTY_ID,
        value: Some(false),
        remaining_time: Some(9),
    };
    assert!(matches!(translate(raw), Ok(Some(MpvEvent::Play(9)))));
}

#[test]
fn pause_property_without_time_uses_zero() {
    let raw = RawNotification::PropertyChange {
        id: PAUSE_PROPERTY_ID,
        value: Some(false),
        remaining_time: None,
    };
    assert!(matches!(translate(raw), Ok(Some(MpvEvent::Play(0)))));
}

#[test]
fn pause_property_without_value_is_an_error() {
    let raw = RawNotification::PropertyChange {
        id: PAUSE_PROPERTY_ID,
        value: None,
        remaining_time: Some(1),
    };
    assert_eq!(translate(raw).err(), Some(TranslateError::MissingPropertyValue));
}

#[test]
fn buffering_property_true_becomes_buffering() {
    let raw = RawNotification::PropertyChange {
        id: BUFFERING_PROPERTY_ID,
        value: Some(true),
        remaining_time: None,
    };
    assert!(matches!(translate(raw), Ok(Some(MpvEvent::Buffering))));
}

#[test]
fn buffering_end_translates_to_nothing() {
    let raw = RawNotification::PropertyChange {
        id: BUFFERING_PROPERTY_ID,
        value: Some(false),
        remaining_time: None,
    };
    assert!(matches!(translate(raw), Ok(None)));
}

#[test]
fn unobserved_property_translates_to_nothing() {
    let raw = RawNotification::PropertyChange { id: 99, value: Some(true), remaining_time: None };
    assert!(matches!(translate(raw), Ok(None)));
}

#[test]
fn toggle_key_binding_becomes_toggle() {
    let raw = RawNotification::ClientMessage {
        args: args(&["key-binding", "toggle-rpc", "d-1", "p"]),
    };
    assert!(matches!(translate(raw), Ok(Some(MpvEvent::Toggle))));
}

#[test]
fn other_client_messages_translate_to_nothing() {
    let raw = RawNotification::ClientMessage { args: args(&["key-binding", "other-binding"]) };
    assert!(matches!(translate(raw), Ok(None)));
    let raw = RawNotification::ClientMessage { args: Vec::new() };
    assert!(matches!(translate(raw), Ok(None)));
}

#[test]
fn shutdown_becomes_exit() {
    assert!(matches!(translate(RawNotification::Shutdown), Ok(Some(MpvEvent::Exit))));
}

#[test]
fn idle_translates_to_nothing() {
    assert!(matches!(translate(RawNotification::Idle), Ok(None)));
}

#[test]
fn event_names_match_variants() {
    assert_eq!(MpvEvent::Toggle.event_name(), "Toggle");
    assert_eq!(MpvEvent::Exit.event_name(), "Exit");
    assert_eq!(MpvEvent::Buffering.event_name(), "Buffering");
    assert_eq!(MpvEvent::Seek(1).event_name(), "Seek");
    assert_eq!(MpvEvent::Play(1).event_name(), "Play");
    assert_eq!(MpvEvent::Pause(1).event_name(), "Pause");
}
