use mpv_rpc::events::{FileInfo, FileMetadata, MpvEvent, MpvRequest};
use mpv_rpc::presence::{DiscordClient, PresenceError, TransportCommand};

fn metadata(
    artist: Option<&str>,
    album_artist: Option<&str>,
    album: Option<&str>,
    title: Option<&str>,
    track: Option<&str>,
) -> FileMetadata {
    FileMetadata {
        artist: artist.map(String::from),
        album_artist: album_artist.map(String::from),
        album: album.map(String::from),
        title: title.map(String::from),
        track: track.map(String::from),
    }
}

fn file_info(filename: &str, meta: FileMetadata) -> FileInfo {
    FileInfo { filename: String::from(filename), metadata: meta }
}

/// Run every pending transport call, reporting success, and record each
/// call as "open", "send:<details>|<state>" or "close".
fn drain_ok(client: &mut DiscordClient, calls: &mut Vec<String>) {
    while let Some(cmd) = client.pending_command() {
        match cmd {
            TransportCommand::Open => calls.push(String::from("open")),
            TransportCommand::Send(activity) => {
                calls.push(format!("send:{}|{}", activity.details, activity.state))
            }
            TransportCommand::Close => calls.push(String::from("close")),
        }
        client.transport_result(true).unwrap();
    }
}

#[test]
fn details_and_state_default_to_filename_and_empty() {
    let info = file_info("song.mp3", metadata(None, None, None, None, None));
    assert_eq!(DiscordClient::get_details(&info), "song.mp3");
    assert_eq!(DiscordClient::get_state(&info), "");
}

#[test]
fn state_with_artist_and_album() {
    let info = file_info("f", metadata(Some("A"), None, Some("B"), None, None));
    assert_eq!(DiscordClient::get_state(&info), "by A on B");
}

#[test]
fn state_with_artist_only() {
    let info = file_info("f", metadata(Some("A"), None, None, None, None));
    assert_eq!(DiscordClient::get_state(&info), "by A");
}

#[test]
fn state_with_album_only_keeps_leading_space() {
    let info = file_info("f", metadata(None, None, Some("B"), None, None));
    assert_eq!(DiscordClient::get_state(&info), " on B");
}

#[test]
fn details_with_title_and_track() {
    let info = file_info("f", metadata(None, None, None, Some("Y"), Some("3")));
    assert_eq!(DiscordClient::get_details(&info), "Y [T3] ");
}

#[test]
fn details_with_title_only() {
    let info = file_info("f", metadata(None, None, None, Some("Y"), None));
    assert_eq!(DiscordClient::get_details(&info), "Y");
}

#[test]
fn details_of_long_title_is_truncated() {
    let long: String = std::iter::repeat('t').take(200).collect();
    let info = file_info("f", metadata(None, None, None, Some(&long), None));
    let details = DiscordClient::get_details(&info);
    assert_eq!(details.chars().count(), 128);
    assert!(details.ends_with("..."));
}

#[test]
fn play_and_seek_set_timestamp_to_now_plus_remaining() {
    let mut client = DiscordClient::new(false, false);
    client.handle_event(MpvEvent::Play(120), 1_000, None);
    assert_eq!(client.current_activity().end_timestamp, Some(1_120));
    client.handle_event(MpvEvent::Seek(30), 2_000, None);
    assert_eq!(client.current_activity().end_timestamp, Some(2_030));
}

#[test]
fn pause_and_buffering_clear_timestamp() {
    let mut client = DiscordClient::new(false, false);
    client.handle_event(MpvEvent::Play(120), 1_000, None);
    client.handle_event(MpvEvent::Pause(50), 1_100, None);
    assert_eq!(client.current_activity().end_timestamp, None);
    client.handle_event(MpvEvent::Seek(30), 2_000, None);
    client.handle_event(MpvEvent::Buffering, 2_100, None);
    assert_eq!(client.current_activity().end_timestamp, None);
}

#[test]
fn toggling_twice_restores_connection_and_session() {
    let mut calls: Vec<String> = Vec::new();
    let mut client = DiscordClient::new(false, false);
    let info = file_info("f", metadata(Some("A"), None, None, Some("T"), None));
    client.handle_event(MpvEvent::FileLoaded(info), 0, None);
    drain_ok(&mut client, &mut calls);
    let details_before = client.current_activity().details.clone();
    let state_before = client.current_activity().state.clone();
    assert!(!client.is_active());

    client.handle_event(MpvEvent::Toggle, 0, None);
    drain_ok(&mut client, &mut calls);
    assert!(client.is_active());
    client.handle_event(MpvEvent::Toggle, 0, None);
    drain_ok(&mut client, &mut calls);
    assert!(!client.is_active());

    assert_eq!(client.current_activity().details, details_before);
    assert_eq!(client.current_activity().state, state_before);
    assert_eq!(calls, vec!["open", "send:T|by A", "close"]);
}

#[test]
fn toggle_queues_started_and_stopped_messages() {
    let mut calls: Vec<String> = Vec::new();
    let mut client = DiscordClient::new(false, false);
    client.handle_event(MpvEvent::Toggle, 0, None);
    drain_ok(&mut client, &mut calls);
    client.handle_event(MpvEvent::Toggle, 0, None);
    drain_ok(&mut client, &mut calls);
    let MpvRequest::OSDMessage(first) = client.next_request().unwrap();
    let MpvRequest::OSDMessage(second) = client.next_request().unwrap();
    assert_eq!(first, "Discord RPC started");
    assert_eq!(second, "Discord RPC stopped");
    assert!(client.next_request().is_none());
}

#[test]
fn starts_connecting_when_configured_active() {
    let client = DiscordClient::new(true, false);
    assert!(matches!(client.pending_command(), Some(TransportCommand::Open)));
    assert!(!client.is_active());
}

#[test]
fn no_transport_calls_while_disconnected() {
    let mut client = DiscordClient::new(false, false);
    let info = file_info("f", metadata(None, None, None, None, None));
    client.handle_event(MpvEvent::FileLoaded(info), 0, None);
    assert!(client.pending_command().is_none());
    client.handle_event(MpvEvent::Play(5), 0, None);
    assert!(client.pending_command().is_none());
    client.handle_event(MpvEvent::Exit, 0, None);
    assert!(client.pending_command().is_none());
}

#[test]
fn connect_failure_is_reported_and_queues_nothing() {
    let mut client = DiscordClient::new(false, false);
    client.handle_event(MpvEvent::Toggle, 0, None);
    assert!(matches!(client.pending_command(), Some(TransportCommand::Open)));
    let r = client.transport_result(false);
    assert_eq!(r, Err(PresenceError::ConnectFailed));
    assert!(!client.is_active());
    assert!(client.pending_command().is_none());
    assert!(client.next_request().is_none());
}

#[test]
fn send_failure_forces_disconnection() {
    let mut calls: Vec<String> = Vec::new();
    let mut client = DiscordClient::new(false, false);
    client.handle_event(MpvEvent::Toggle, 0, None);
    drain_ok(&mut client, &mut calls);
    assert!(client.is_active());
    client.handle_event(MpvEvent::Play(10), 0, None);
    assert!(matches!(client.pending_command(), Some(TransportCommand::Send(_))));
    let r = client.transport_result(false);
    assert_eq!(r, Err(PresenceError::SendFailed));
    assert!(!client.is_active());
    assert!(client.pending_command().is_none());
}

#[test]
fn close_failure_leaves_connection_on() {
    let mut calls: Vec<String> = Vec::new();
    let mut client = DiscordClient::new(false, false);
    client.handle_event(MpvEvent::Toggle, 0, None);
    drain_ok(&mut client, &mut calls);
    client.handle_event(MpvEvent::Toggle, 0, None);
    assert!(matches!(client.pending_command(), Some(TransportCommand::Close)));
    let r = client.transport_result(false);
    assert_eq!(r, Err(PresenceError::CloseFailed));
    assert!(client.is_active());
    assert!(client.pending_command().is_none());
}

#[test]
fn exit_closes_without_a_message() {
    let mut calls: Vec<String> = Vec::new();
    let mut client = DiscordClient::new(false, false);
    client.handle_event(MpvEvent::Toggle, 0, None);
    drain_ok(&mut client, &mut calls);
    while client.next_request().is_some() {}
    client.handle_event(MpvEvent::Exit, 0, None);
    drain_ok(&mut client, &mut calls);
    assert!(!client.is_active());
    assert!(client.next_request().is_none());
    assert_eq!(calls, vec!["open", "send:|", "close"]);
}

#[test]
fn error_messages_match() {
    assert_eq!(PresenceError::ConnectFailed.message(), "cannot connect to Discord");
    assert_eq!(PresenceError::SendFailed.message(), "cannot set presence");
    assert_eq!(PresenceError::CloseFailed.message(), "cannot disconnect from Discord");
}
