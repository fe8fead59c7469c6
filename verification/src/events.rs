//! Domain vocabulary shared by the translator and the presence state machine:
//! file metadata, domain events, and outbound requests.

use vstd::prelude::*;

verus! {

/// Tag fields of a loaded media file. Every field may independently be
/// absent; a file with no tags at all is a valid, common case.
pub struct FileMetadata {
    pub artist: Option<String>,
    pub album_artist: Option<String>,
    pub album: Option<String>,
    pub title: Option<String>,
    pub track: Option<String>,
}

/// Mathematical image of `FileMetadata`: each field as an optional
/// character sequence.
#[verifier::ext_equal]
pub ghost struct MetadataModel {
    pub artist: Option<Seq<char>>,
    pub album_artist: Option<Seq<char>>,
    pub album: Option<Seq<char>>,
    pub title: Option<Seq<char>>,
    pub track: Option<Seq<char>>,
}

/// The view of an optional owned string.
pub open spec fn opt_text(o: Option<String>) -> Option<Seq<char>> {
    match o {
        Some(s) => Some(s@),
        None => None,
    }
}

/// The view of an optional machine integer.
pub open spec fn opt_time(o: Option<i64>) -> Option<int> {
    match o {
        Some(t) => Some(t as int),
        None => None,
    }
}

impl View for FileMetadata {
    type V = MetadataModel;

    open spec fn view(&self) -> MetadataModel {
        MetadataModel {
            artist: opt_text(self.artist),
            album_artist: opt_text(self.album_artist),
            album: opt_text(self.album),
            title: opt_text(self.title),
            track: opt_text(self.track),
        }
    }
}

/// A loaded file: the filename always exists and serves as the fallback
/// display name; the metadata may be entirely absent.
pub struct FileInfo {
    pub filename: String,
    pub metadata: FileMetadata,
}

#[verifier::ext_equal]
pub ghost struct FileInfoModel {
    pub filename: Seq<char>,
    pub metadata: MetadataModel,
}

impl View for FileInfo {
    type V = FileInfoModel;

    open spec fn view(&self) -> FileInfoModel {
        FileInfoModel { filename: self.filename@, metadata: self.metadata@ }
    }
}

/// A domain event: the translated form of one raw player notification.
/// `Seek`, `Play` and `Pause` carry the remaining playback time in seconds
/// as read from the player at translation time.
pub enum MpvEvent {
    FileLoaded(FileInfo),
    Seek(i64),
    Play(i64),
    Pause(i64),
    Buffering,
    Toggle,
    Exit,
}

#[verifier::ext_equal]
pub ghost enum EventModel {
    FileLoaded(FileInfoModel),
    Seek(int),
    Play(int),
    Pause(int),
    Buffering,
    Toggle,
    Exit,
}

impl View for MpvEvent {
    type V = EventModel;

    open spec fn view(&self) -> EventModel {
        match self {
            MpvEvent::FileLoaded(info) => EventModel::FileLoaded(info@),
            MpvEvent::Seek(t) => EventModel::Seek(*t as int),
            MpvEvent::Play(t) => EventModel::Play(*t as int),
            MpvEvent::Pause(t) => EventModel::Pause(*t as int),
            MpvEvent::Buffering => EventModel::Buffering,
            MpvEvent::Toggle => EventModel::Toggle,
            MpvEvent::Exit => EventModel::Exit,
        }
    }
}

impl MpvEvent {
    /// The event's name, for log lines.
    pub fn event_name(&self) -> (r: &'static str)
        ensures
            *self is FileLoaded ==> r@ == "FileLoaded"@,
            *self is Seek ==> r@ == "Seek"@,
            *self is Play ==> r@ == "Play"@,
            *self is Pause ==> r@ == "Pause"@,
            *self is Buffering ==> r@ == "Buffering"@,
            *self is Toggle ==> r@ == "Toggle"@,
            *self is Exit ==> r@ == "Exit"@,
    {
        match self {
            MpvEvent::FileLoaded(_) => "FileLoaded",
            MpvEvent::Seek(_) => "Seek",
            MpvEvent::Play(_) => "Play",
            MpvEvent::Pause(_) => "Pause",
            MpvEvent::Buffering => "Buffering",
            MpvEvent::Toggle => "Toggle",
            MpvEvent::Exit => "Exit",
        }
    }
}

/// An outbound request queued by the presence state machine for the player:
/// a transient on-screen message.
pub enum MpvRequest {
    OSDMessage(String),
}

#[verifier::ext_equal]
pub ghost enum RequestModel {
    OSDMessage(Seq<char>),
}

impl View for MpvRequest {
    type V = RequestModel;

    open spec fn view(&self) -> RequestModel {
        match self {
            MpvRequest::OSDMessage(text) => RequestModel::OSDMessage(text@),
        }
    }
}

} // verus!
