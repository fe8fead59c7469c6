//! The presence state machine: it owns the connection flag, the staged
//! presence payload and the queue of outbound on-screen messages, and it
//! decides, for every domain event, what the transport must do next.
//!
//! The transport itself (connect, send, close) is performed outside the
//! library: `pending_command` names the call the machine is waiting for,
//! and `transport_result` feeds the call's outcome back in. The machine
//! never asks for a transport call while disconnected, publishing is a
//! successful no-op in that state.

use vstd::prelude::*;
use vstd::string::StringExecFns;
use crate::events::{
    EventModel, FileInfo, FileInfoModel, FileMetadata, MetadataModel, MpvEvent, MpvRequest,
    RequestModel, opt_text, opt_time,
};
use crate::text::{MAX_STR_LEN, trunc_marked, truncate_string_fmt};

verus! {

/// Image key and hover text published with the presence payload.
pub struct AssetsInfo {
    pub large_image: String,
    pub large_text: String,
}

#[verifier::ext_equal]
pub ghost struct AssetsModel {
    pub large_image: Seq<char>,
    pub large_text: Seq<char>,
}

impl View for AssetsInfo {
    type V = AssetsModel;

    open spec fn view(&self) -> AssetsModel {
        AssetsModel { large_image: self.large_image@, large_text: self.large_text@ }
    }
}

impl AssetsInfo {
    pub fn new(large_image: String, large_text: String) -> (r: Self)
        ensures
            r@ == (AssetsModel { large_image: large_image@, large_text: large_text@ }),
    {
        Self { large_image, large_text }
    }

    pub fn empty() -> (r: Self)
        ensures
            r@ == empty_assets(),
    {
        Self { large_image: String::new(), large_text: String::new() }
    }

    fn duplicate(&self) -> (r: Self)
        ensures
            r@ == self@,
    {
        Self { large_image: self.large_image.clone(), large_text: self.large_text.clone() }
    }
}

pub open spec fn empty_assets() -> AssetsModel {
    AssetsModel { large_image: Seq::<char>::empty(), large_text: Seq::<char>::empty() }
}

/// The resolved presence payload: primary line, secondary line, assets,
/// and an optional absolute end timestamp in seconds since the epoch.
pub struct ActivityInfo {
    pub details: String,
    pub state: String,
    pub assets: AssetsInfo,
    pub end_timestamp: Option<i64>,
}

#[verifier::ext_equal]
pub ghost struct ActivityModel {
    pub details: Seq<char>,
    pub state: Seq<char>,
    pub assets: AssetsModel,
    pub end_timestamp: Option<int>,
}

impl View for ActivityInfo {
    type V = ActivityModel;

    open spec fn view(&self) -> ActivityModel {
        ActivityModel {
            details: self.details@,
            state: self.state@,
            assets: self.assets@,
            end_timestamp: opt_time(self.end_timestamp),
        }
    }
}

pub open spec fn empty_activity() -> ActivityModel {
    ActivityModel {
        details: Seq::<char>::empty(),
        state: Seq::<char>::empty(),
        assets: empty_assets(),
        end_timestamp: None,
    }
}

impl ActivityInfo {
    pub fn new(details: String, state: String, assets: AssetsInfo, end_timestamp: Option<
        i64,
    >) -> (r: Self)
        ensures
            r@ == (ActivityModel {
                details: details@,
                state: state@,
                assets: assets@,
                end_timestamp: opt_time(end_timestamp),
            }),
    {
        Self { details, state, assets, end_timestamp }
    }

    pub fn empty() -> (r: Self)
        ensures
            r@ == empty_activity(),
    {
        Self {
            details: String::new(),
            state: String::new(),
            assets: AssetsInfo::empty(),
            end_timestamp: None,
        }
    }

    fn duplicate(&self) -> (r: Self)
        ensures
            r@ == self@,
    {
        Self {
            details: self.details.clone(),
            state: self.state.clone(),
            assets: self.assets.duplicate(),
            end_timestamp: self.end_timestamp,
        }
    }
}

/// A transport failure reported to the caller; never fatal to the machine.
#[derive(Clone, Copy, Debug, PartialEq, Eq, Structural)]
pub enum PresenceError {
    ConnectFailed,
    SendFailed,
    CloseFailed,
}

impl PresenceError {
    /// A human-readable description of the failure.
    pub fn message(&self) -> (r: String)
        ensures
            *self == PresenceError::ConnectFailed ==> r@ == "cannot connect to Discord"@,
            *self == PresenceError::SendFailed ==> r@ == "cannot set presence"@,
            *self == PresenceError::CloseFailed ==> r@ == "cannot disconnect from Discord"@,
    {
        match self {
            PresenceError::ConnectFailed => String::from_str("cannot connect to Discord"),
            PresenceError::SendFailed => String::from_str("cannot set presence"),
            PresenceError::CloseFailed => String::from_str("cannot disconnect from Discord"),
        }
    }
}

/// The transport call the machine is waiting for.
pub enum TransportCommand {
    Open,
    Send(ActivityInfo),
    Close,
}

#[verifier::ext_equal]
pub ghost enum CommandModel {
    Open,
    Send(ActivityModel),
    Close,
}

impl View for TransportCommand {
    type V = CommandModel;

    open spec fn view(&self) -> CommandModel {
        match self {
            TransportCommand::Open => CommandModel::Open,
            TransportCommand::Send(activity) => CommandModel::Send(activity@),
            TransportCommand::Close => CommandModel::Close,
        }
    }
}

/// The view of an optional transport command.
pub open spec fn opt_command(o: Option<TransportCommand>) -> Option<CommandModel> {
    match o {
        Some(c) => Some(c@),
        None => None,
    }
}

/// Where the machine stands in its dialogue with the transport.
#[derive(Clone, Copy, Debug, PartialEq, Eq, Structural)]
pub enum Phase {
    /// No transport call is pending.
    Ready,
    /// Waiting for the outcome of a connect.
    Connecting,
    /// Waiting for the outcome of a send of the staged payload.
    Sending,
    /// Waiting for the outcome of a close that announces itself on screen.
    Closing,
    /// Waiting for the outcome of a close at process exit, without a message.
    ClosingSilent,
}

/// Mathematical image of the whole machine.
#[verifier::ext_equal]
pub ghost struct ClientModel {
    pub activity: ActivityModel,
    pub active: bool,
    pub cover_art: bool,
    pub requests: Seq<RequestModel>,
    pub phase: Phase,
}

// ---------------------------------------------------------------------------
// Presence text formatting
// ---------------------------------------------------------------------------
/// The `"by {artist}"` clause of the secondary line; empty when the artist
/// is unknown.
pub open spec fn by_clause(artist: Option<Seq<char>>) -> Seq<char> {
    match artist {
        Some(a) => "by "@ + a,
        None => Seq::<char>::empty(),
    }
}

/// The `" on {album}"` clause of the secondary line; empty when the album
/// is unknown. The leading space stays even when no artist clause precedes
/// it, an accepted cosmetic quirk.
pub open spec fn on_clause(album: Option<Seq<char>>) -> Seq<char> {
    match album {
        Some(a) => " on "@ + a,
        None => Seq::<char>::empty(),
    }
}

/// The secondary presence line for the given metadata.
pub open spec fn state_of(m: MetadataModel) -> Seq<char> {
    trunc_marked(by_clause(m.artist) + on_clause(m.album), MAX_STR_LEN as int)
}

/// The primary presence line: the title, annotated with the track number
/// when present, both truncated; the bare filename when no title is known.
pub open spec fn details_of(info: FileInfoModel) -> Seq<char> {
    match info.metadata.title {
        Some(t) => trunc_marked(
            match info.metadata.track {
                Some(tr) => t + " [T"@ + tr + "] "@,
                None => t,
            },
            MAX_STR_LEN as int,
        ),
        None => info.filename,
    }
}

/// The large image key: the resolved cover-art URL, or the default logo.
pub open spec fn large_image_of(cover_art: bool, cover: Option<Seq<char>>) -> Seq<char> {
    if cover_art {
        match cover {
            Some(url) => url,
            None => "logo"@,
        }
    } else {
        "logo"@
    }
}

/// The large image hover text: title, else album, else the player's name.
pub open spec fn large_text_of(cover_art: bool, m: MetadataModel) -> Seq<char> {
    if cover_art {
        match m.title {
            Some(t) => t,
            None => match m.album {
                Some(a) => a,
                None => "mpv"@,
            },
        }
    } else {
        "mpv"@
    }
}

/// The payload staged for a freshly loaded file.
pub open spec fn loaded_activity(
    cover_art: bool,
    info: FileInfoModel,
    cover: Option<Seq<char>>,
) -> ActivityModel {
    ActivityModel {
        details: details_of(info),
        state: state_of(info.metadata),
        assets: AssetsModel {
            large_image: large_image_of(cover_art, cover),
            large_text: large_text_of(cover_art, info.metadata),
        },
        end_timestamp: None,
    }
}

// ---------------------------------------------------------------------------
// Transitions
// ---------------------------------------------------------------------------
pub open spec fn started_text() -> Seq<char> {
    "Discord RPC started"@
}

pub open spec fn stopped_text() -> Seq<char> {
    "Discord RPC stopped"@
}

/// The phase after staging a payload: publishing is asked of the transport
/// only while connected, and is a successful no-op otherwise.
pub open spec fn publish_phase(m: ClientModel) -> Phase {
    if m.active {
        Phase::Sending
    } else {
        Phase::Ready
    }
}

/// The machine after consuming one domain event. `now` is the current wall
/// clock in seconds since the epoch; `cover` is the resolved cover-art URL
/// for a file-loaded event.
pub open spec fn step_event(
    m: ClientModel,
    ev: EventModel,
    now: int,
    cover: Option<Seq<char>>,
) -> ClientModel {
    match ev {
        EventModel::FileLoaded(info) => ClientModel {
            activity: loaded_activity(m.cover_art, info, cover),
            phase: publish_phase(m),
            ..m
        },
        EventModel::Seek(t) => ClientModel {
            activity: ActivityModel { end_timestamp: Some(now + t), ..m.activity },
            phase: publish_phase(m),
            ..m
        },
        EventModel::Play(t) => ClientModel {
            activity: ActivityModel { end_timestamp: Some(now + t), ..m.activity },
            phase: publish_phase(m),
            ..m
        },
        EventModel::Pause(_) => ClientModel {
            activity: ActivityModel { end_timestamp: None, ..m.activity },
            phase: publish_phase(m),
            ..m
        },
        EventModel::Buffering => ClientModel {
            activity: ActivityModel { end_timestamp: None, ..m.activity },
            phase: publish_phase(m),
            ..m
        },
        EventModel::Toggle => if m.active {
            ClientModel { phase: Phase::Closing, ..m }
        } else {
            ClientModel { phase: Phase::Connecting, ..m }
        },
        EventModel::Exit => if m.active {
            ClientModel { phase: Phase::ClosingSilent, ..m }
        } else {
            m
        },
    }
}

/// The machine after the pending transport call reported `ok`.
pub open spec fn step_transport(m: ClientModel, ok: bool) -> ClientModel {
    match m.phase {
        Phase::Ready => m,
        Phase::Connecting => if ok {
            ClientModel {
                active: true,
                requests: m.requests.push(RequestModel::OSDMessage(started_text())),
                phase: Phase::Sending,
                ..m
            }
        } else {
            ClientModel { phase: Phase::Ready, ..m }
        },
        Phase::Sending => if ok {
            ClientModel { phase: Phase::Ready, ..m }
        } else {
            ClientModel { active: false, phase: Phase::Ready, ..m }
        },
        Phase::Closing => if ok {
            ClientModel {
                active: false,
                requests: m.requests.push(RequestModel::OSDMessage(stopped_text())),
                phase: Phase::Ready,
                ..m
            }
        } else {
            ClientModel { phase: Phase::Ready, ..m }
        },
        Phase::ClosingSilent => if ok {
            ClientModel { active: false, phase: Phase::Ready, ..m }
        } else {
            ClientModel { phase: Phase::Ready, ..m }
        },
    }
}

/// The error reported for the pending transport call's outcome.
pub open spec fn step_outcome(m: ClientModel, ok: bool) -> Result<(), PresenceError> {
    if ok {
        Ok(())
    } else {
        match m.phase {
            Phase::Ready => Ok(()),
            Phase::Connecting => Err(PresenceError::ConnectFailed),
            Phase::Sending => Err(PresenceError::SendFailed),
            Phase::Closing => Err(PresenceError::CloseFailed),
            Phase::ClosingSilent => Err(PresenceError::CloseFailed),
        }
    }
}

/// The transport call the machine is waiting for, if any.
pub open spec fn pending_of(m: ClientModel) -> Option<CommandModel> {
    match m.phase {
        Phase::Ready => None,
        Phase::Connecting => Some(CommandModel::Open),
        Phase::Sending => Some(CommandModel::Send(m.activity)),
        Phase::Closing => Some(CommandModel::Close),
        Phase::ClosingSilent => Some(CommandModel::Close),
    }
}

/// The machine as constructed: disconnected with an empty payload, and
/// already asking for a connect when the configuration starts it active.
pub open spec fn initial_model(active: bool, cover_art: bool) -> ClientModel {
    ClientModel {
        activity: empty_activity(),
        active: false,
        cover_art,
        requests: Seq::<RequestModel>::empty(),
        phase: if active {
            Phase::Connecting
        } else {
            Phase::Ready
        },
    }
}

// ---------------------------------------------------------------------------
// The machine
// ---------------------------------------------------------------------------
/// The presence state machine.
pub struct DiscordClient {
    activity_info: ActivityInfo,
    active: bool,
    cover_art: bool,
    mpv_requests: Vec<MpvRequest>,
    phase: Phase,
}

impl View for DiscordClient {
    type V = ClientModel;

    closed spec fn view(&self) -> ClientModel {
        ClientModel {
            activity: self.activity_info@,
            active: self.active,
            cover_art: self.cover_art,
            requests: self.mpv_requests@.map_values(|r: MpvRequest| r@),
            phase: self.phase,
        }
    }
}

impl DiscordClient {
    /// A fresh machine. When `active` is set the machine immediately asks
    /// for a connect; the connection flag itself only turns on once the
    /// transport reports that the connect succeeded.
    pub fn new(active: bool, cover_art: bool) -> (r: Self)
        ensures
            r@ == initial_model(active, cover_art),
    {
        let r = Self {
            activity_info: ActivityInfo::empty(),
            active: false,
            cover_art,
            mpv_requests: Vec::new(),
            phase: if active {
                Phase::Connecting
            } else {
                Phase::Ready
            },
        };
        proof {
            assert(r@ =~= initial_model(active, cover_art));
        }
        r
    }

    /// The secondary presence line for a loaded file.
    pub fn get_state(file_info: &FileInfo) -> (r: String)
        ensures
            r@ == state_of(file_info.metadata@),
    {
        let metadata = &file_info.metadata;
        let mut state = String::new();
        if let Some(artist) = &metadata.artist {
            state.append("by ");
            state.append(artist.as_str());
        }
        if let Some(album) = &metadata.album {
            state.append(" on ");
            state.append(album.as_str());
        }
        proof {
            assert(state@ =~= by_clause(file_info.metadata@.artist) + on_clause(
                file_info.metadata@.album,
            ));
        }
        truncate_string_fmt(&mut state, MAX_STR_LEN);
        state
    }

    /// The primary presence line for a loaded file.
    pub fn get_details(file_info: &FileInfo) -> (r: String)
        ensures
            r@ == details_of(file_info@),
    {
        let metadata = &file_info.metadata;
        let title = match &metadata.title {
            Some(title) => title,
            None => {
                return file_info.filename.clone();
            },
        };
        let mut details = match &metadata.track {
            Some(track) => {
                let mut d = title.clone();
                d.append(" [T");
                d.append(track.as_str());
                d.append("] ");
                proof {
                    assert(d@ =~= title@ + " [T"@ + track@ + "] "@);
                }
                d
            },
            None => title.clone(),
        };
        truncate_string_fmt(&mut details, MAX_STR_LEN);
        details
    }

    /// The assets for a loaded file, given the resolved cover-art URL.
    fn get_assets_info(cover_art: bool, metadata: &FileMetadata, cover_url: Option<
        String,
    >) -> (r: AssetsInfo)
        ensures
            r@ == (AssetsModel {
                large_image: large_image_of(cover_art, opt_text(cover_url)),
                large_text: large_text_of(cover_art, metadata@),
            }),
    {
        let (large_image, large_text) = Self::get_large_info(cover_art, metadata, cover_url);
        AssetsInfo::new(large_image, large_text)
    }

    /// The large image key and hover text, before any cover-art default.
    fn get_large_info(cover_art: bool, metadata: &FileMetadata, cover_url: Option<String>) -> (r: (
        String,
        String,
    ))
        ensures
            r.0@ == large_image_of(cover_art, opt_text(cover_url)),
            r.1@ == large_text_of(cover_art, metadata@),
    {
        if !cover_art {
            return (String::from_str("logo"), String::from_str("mpv"));
        }
        let large_image = match cover_url {
            Some(url) => url,
            None => String::from_str("logo"),
        };
        let large_text = match &metadata.title {
            Some(text) => text.clone(),
            None => match &metadata.album {
                Some(text) => text.clone(),
                None => String::from_str("mpv"),
            },
        };
        (large_image, large_text)
    }

    /// Stage the publication of the current payload: ask the transport to
    /// send it while connected, do nothing (successfully) otherwise.
    fn update_presence(&mut self)
        ensures
            final(self)@ == (ClientModel { phase: publish_phase(old(self)@), ..old(self)@ }),
    {
        if self.active {
            self.phase = Phase::Sending;
        } else {
            self.phase = Phase::Ready;
        }
    }

    /// Stage the payload for a freshly loaded file and its publication.
    fn set_presence(&mut self, file_info: FileInfo, cover_url: Option<String>)
        ensures
            final(self)@ == (ClientModel {
                activity: loaded_activity(old(self)@.cover_art, file_info@, opt_text(cover_url)),
                phase: publish_phase(old(self)@),
                ..old(self)@
            }),
    {
        let details = Self::get_details(&file_info);
        let state = Self::get_state(&file_info);
        let assets_info = Self::get_assets_info(self.cover_art, &file_info.metadata, cover_url);
        self.activity_info = ActivityInfo::new(details, state, assets_info, None);
        self.update_presence();
    }

    /// Stage the predicted end of playback and its publication.
    fn set_timestamps(&mut self, now: i64, remaining_time: i64)
        requires
            i64::MIN <= now as int + remaining_time as int,
            now as int + remaining_time as int <= i64::MAX,
        ensures
            final(self)@ == (ClientModel {
                activity: ActivityModel {
                    end_timestamp: Some(now as int + remaining_time as int),
                    ..old(self)@.activity
                },
                phase: publish_phase(old(self)@),
                ..old(self)@
            }),
    {
        let predicted_time: i64 = now + remaining_time;
        self.activity_info.end_timestamp = Some(predicted_time);
        self.update_presence();
    }

    /// Clear the end timestamp (no countdown while playback is not
    /// progressing) and stage the publication.
    fn clear_timestamps(&mut self)
        ensures
            final(self)@ == (ClientModel {
                activity: ActivityModel { end_timestamp: None, ..old(self)@.activity },
                phase: publish_phase(old(self)@),
                ..old(self)@
            }),
    {
        self.activity_info.end_timestamp = None;
        self.update_presence();
    }

    /// Begin connecting or disconnecting, depending on the current flag.
    fn toggle_activity(&mut self)
        ensures
            final(self)@ == (ClientModel {
                phase: if old(self)@.active {
                    Phase::Closing
                } else {
                    Phase::Connecting
                },
                ..old(self)@
            }),
    {
        if self.active {
            self.phase = Phase::Closing;
        } else {
            self.phase = Phase::Connecting;
        }
    }

    /// Consume one domain event. `now` is the current wall clock in seconds
    /// since the epoch; `cover_url` is the resolved cover-art URL, consulted
    /// only for a file-loaded event. A `Play` or `Seek` event stages an end
    /// timestamp of exactly `now + remaining`; `Pause` and `Buffering` clear
    /// it whatever it was.
    pub fn handle_event(&mut self, event: MpvEvent, now: i64, cover_url: Option<String>)
        requires
            old(self)@.phase == Phase::Ready,
            event@ matches EventModel::Play(t) ==> i64::MIN <= now as int + t <= i64::MAX,
            event@ matches EventModel::Seek(t) ==> i64::MIN <= now as int + t <= i64::MAX,
        ensures
            final(self)@ == step_event(old(self)@, event@, now as int, opt_text(cover_url)),
    {
        match event {
            MpvEvent::FileLoaded(file_info) => self.set_presence(file_info, cover_url),
            MpvEvent::Seek(remaining_time) => self.set_timestamps(now, remaining_time),
            MpvEvent::Play(remaining_time) => self.set_timestamps(now, remaining_time),
            MpvEvent::Pause(_) => self.clear_timestamps(),
            MpvEvent::Buffering => self.clear_timestamps(),
            MpvEvent::Toggle => self.toggle_activity(),
            MpvEvent::Exit => {
                if self.active {
                    self.phase = Phase::ClosingSilent;
                }
            },
        }
    }

    /// The transport call the machine is waiting for, if any. The payload
    /// handed out with a send request is the staged activity.
    pub fn pending_command(&self) -> (r: Option<TransportCommand>)
        ensures
            opt_command(r) == pending_of(self@),
    {
        match self.phase {
            Phase::Ready => None,
            Phase::Connecting => Some(TransportCommand::Open),
            Phase::Sending => Some(TransportCommand::Send(self.activity_info.duplicate())),
            Phase::Closing => Some(TransportCommand::Close),
            Phase::ClosingSilent => Some(TransportCommand::Close),
        }
    }

    /// Feed back the outcome of the pending transport call. A successful
    /// connect turns the connection on, announces it, and asks for the
    /// current payload to be sent; a failed send forces the connection off;
    /// a successful close turns it off, announcing it unless the machine is
    /// exiting.
    pub fn transport_result(&mut self, ok: bool) -> (r: Result<(), PresenceError>)
        requires
            old(self)@.phase != Phase::Ready,
        ensures
            final(self)@ == step_transport(old(self)@, ok),
            r == step_outcome(old(self)@, ok),
    {
        match self.phase {
            Phase::Ready => Ok(()),
            Phase::Connecting => {
                if ok {
                    self.active = true;
                    self.mpv_requests.push(
                        MpvRequest::OSDMessage(String::from_str("Discord RPC started")),
                    );
                    self.phase = Phase::Sending;
                    proof {
                        assert(self@ =~= step_transport(old(self)@, ok));
                    }
                    Ok(())
                } else {
                    self.phase = Phase::Ready;
                    Err(PresenceError::ConnectFailed)
                }
            },
            Phase::Sending => {
                if ok {
                    self.phase = Phase::Ready;
                    Ok(())
                } else {
                    self.active = false;
                    self.phase = Phase::Ready;
                    Err(PresenceError::SendFailed)
                }
            },
            Phase::Closing => {
                if ok {
                    self.active = false;
                    self.mpv_requests.push(
                        MpvRequest::OSDMessage(String::from_str("Discord RPC stopped")),
                    );
                    self.phase = Phase::Ready;
                    proof {
                        assert(self@ =~= step_transport(old(self)@, ok));
                    }
                    Ok(())
                } else {
                    self.phase = Phase::Ready;
                    Err(PresenceError::CloseFailed)
                }
            },
            Phase::ClosingSilent => {
                if ok {
                    self.active = false;
                    self.phase = Phase::Ready;
                    Ok(())
                } else {
                    self.phase = Phase::Ready;
                    Err(PresenceError::CloseFailed)
                }
            },
        }
    }

    /// Hand out the oldest queued outbound request, if any.
    pub fn next_request(&mut self) -> (r: Option<MpvRequest>)
        ensures
            old(self)@.requests.len() == 0 ==> r is None && final(self)@ == old(self)@,
            old(self)@.requests.len() > 0 ==> (r matches Some(req) && req@ == old(
                self,
            )@.requests[0]) && final(self)@ == (ClientModel {
                requests: old(self)@.requests.drop_first(),
                ..old(self)@
            }),
    {
        if self.mpv_requests.len() == 0 {
            None
        } else {
            let req = self.mpv_requests.remove(0);
            proof {
                assert(self@.requests =~= old(self)@.requests.drop_first());
            }
            Some(req)
        }
    }

    /// Whether the machine currently holds the connection open.
    pub fn is_active(&self) -> (r: bool)
        ensures
            r == self@.active,
    {
        self.active
    }

    /// Whether cover-art lookup is enabled for this machine.
    pub fn cover_art_enabled(&self) -> (r: bool)
        ensures
            r == self@.cover_art,
    {
        self.cover_art
    }

    /// The staged presence payload.
    pub fn current_activity(&self) -> (r: &ActivityInfo)
        ensures
            r@ == self@.activity,
    {
        &self.activity_info
    }
}

// ---------------------------------------------------------------------------
// Laws
// ---------------------------------------------------------------------------
/// A file with no metadata at all is shown by its bare filename, with an
/// empty secondary line.
pub proof fn lemma_no_metadata_defaults(info: FileInfoModel)
    requires
        info.metadata.artist is None,
        info.metadata.album is None,
        info.metadata.title is None,
        info.metadata.track is None,
    ensures
        details_of(info) == info.filename,
        state_of(info.metadata) == Seq::<char>::empty(),
{
    assert(by_clause(info.metadata.artist) + on_clause(info.metadata.album) =~= Seq::<
        char,
    >::empty());
}

/// With both artist and album known, and short enough not to be truncated,
/// the secondary line is exactly `"by {artist} on {album}"`.
pub proof fn lemma_state_artist_and_album(m: MetadataModel, artist: Seq<char>, album: Seq<char>)
    requires
        m.artist == Some(artist),
        m.album == Some(album),
        artist.len() + album.len() + 7 <= MAX_STR_LEN,
    ensures
        state_of(m) == "by "@ + artist + " on "@ + album,
{
    reveal_strlit("by ");
    reveal_strlit(" on ");
    assert(("by "@ + artist) + (" on "@ + album) =~= "by "@ + artist + " on "@ + album);
}

/// With only the artist known, the secondary line is exactly `"by {artist}"`.
pub proof fn lemma_state_artist_only(m: MetadataModel, artist: Seq<char>)
    requires
        m.artist == Some(artist),
        m.album is None,
        artist.len() + 3 <= MAX_STR_LEN,
    ensures
        state_of(m) == "by "@ + artist,
{
    reveal_strlit("by ");
    assert(("by "@ + artist) + Seq::<char>::empty() =~= "by "@ + artist);
}

/// With only the album known, the secondary line is exactly `" on {album}"`,
/// leading space included: the quirk is preserved, not normalised away.
pub proof fn lemma_state_album_only(m: MetadataModel, album: Seq<char>)
    requires
        m.artist is None,
        m.album == Some(album),
        album.len() + 4 <= MAX_STR_LEN,
    ensures
        state_of(m) == " on "@ + album,
{
    reveal_strlit(" on ");
    assert(Seq::<char>::empty() + (" on "@ + album) =~= " on "@ + album);
}

/// A `Play` or `Seek` event always stages the end timestamp `now + remaining`.
pub proof fn lemma_play_seek_set_timestamp(m: ClientModel, t: int, now: int, cover: Option<
    Seq<char>,
>)
    ensures
        step_event(m, EventModel::Play(t), now, cover).activity.end_timestamp == Some(now + t),
        step_event(m, EventModel::Seek(t), now, cover).activity.end_timestamp == Some(now + t),
{
}

/// A `Pause` or `Buffering` event clears the end timestamp, whatever it was.
pub proof fn lemma_pause_buffering_clear_timestamp(m: ClientModel, t: int, now: int, cover: Option<
    Seq<char>,
>)
    ensures
        step_event(m, EventModel::Pause(t), now, cover).activity.end_timestamp is None,
        step_event(m, EventModel::Buffering, now, cover).activity.end_timestamp is None,
{
}

/// The machine after one domain event once every pending transport call has
/// succeeded; an event asks for at most two calls in a row.
pub open spec fn settle_ok(m: ClientModel) -> ClientModel {
    let m1 = if m.phase != Phase::Ready {
        step_transport(m, true)
    } else {
        m
    };
    if m1.phase != Phase::Ready {
        step_transport(m1, true)
    } else {
        m1
    }
}

/// The machine after one `Toggle` event, with every transport call succeeding.
pub open spec fn toggle_settled(m: ClientModel) -> ClientModel {
    settle_ok(step_event(m, EventModel::Toggle, 0, None))
}

/// Toggling the connection twice, with the transport cooperating, returns
/// the connection flag to its initial value and leaves the staged session
/// untouched.
pub proof fn lemma_toggle_twice_restores(m: ClientModel)
    requires
        m.phase == Phase::Ready,
    ensures
        toggle_settled(toggle_settled(m)).active == m.active,
        toggle_settled(toggle_settled(m)).activity == m.activity,
        toggle_settled(toggle_settled(m)).phase == Phase::Ready,
{
}

} // verus!
