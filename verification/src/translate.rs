//! The event translator: it decides, for every raw player notification,
//! which domain event (if any) it represents.
//!
//! A raw notification carries, besides its own payload, the property values
//! that are read from the player at translation time: the remaining playback
//! time for pause flips and seek completions, and the filename and metadata
//! for a freshly loaded file. A failed remaining-time read (a known player
//! quirk near the end of a stream) arrives as an absent value and is
//! substituted with zero, never reported as an error.

use vstd::prelude::*;
use crate::events::{
    EventModel, FileInfo, FileInfoModel, FileMetadata, MetadataModel, MpvEvent, opt_time,
};
use crate::text::{join_sep, join_with, spec_starts_with, str_starts_with, texts_of};

verus! {

/// Property id under which the player reports pause flips.
pub const PAUSE_PROPERTY_ID: u64 = 1;

/// Property id under which the player reports buffering flips.
pub const BUFFERING_PROPERTY_ID: u64 = 2;

/// A raw player notification, with the property values read alongside it.
pub enum RawNotification {
    /// A file finished loading. The filename is required; its absence is a
    /// translation failure. Every metadata field is independently optional.
    FileLoaded { filename: Option<String>, metadata: FileMetadata },
    /// Playback restarted after a seek; carries the freshly read remaining
    /// time, absent when the read failed.
    PlaybackRestart { remaining_time: Option<i64> },
    /// An observed property changed; `value` is its boolean payload and
    /// `remaining_time` the freshly read remaining playback time.
    PropertyChange { id: u64, value: Option<bool>, remaining_time: Option<i64> },
    /// A client message, as its list of string tokens.
    ClientMessage { args: Vec<String> },
    /// The player is shutting down.
    Shutdown,
    /// Nothing happened; an idle tick.
    Idle,
}

#[verifier::ext_equal]
pub ghost enum RawModel {
    FileLoaded { filename: Option<Seq<char>>, metadata: MetadataModel },
    PlaybackRestart { remaining_time: Option<int> },
    PropertyChange { id: u64, value: Option<bool>, remaining_time: Option<int> },
    ClientMessage { args: Seq<Seq<char>> },
    Shutdown,
    Idle,
}

impl View for RawNotification {
    type V = RawModel;

    open spec fn view(&self) -> RawModel {
        match self {
            RawNotification::FileLoaded { filename, metadata } => RawModel::FileLoaded {
                filename: crate::events::opt_text(*filename),
                metadata: metadata@,
            },
            RawNotification::PlaybackRestart { remaining_time } => RawModel::PlaybackRestart {
                remaining_time: opt_time(*remaining_time),
            },
            RawNotification::PropertyChange { id, value, remaining_time } => {
                RawModel::PropertyChange {
                    id: *id,
                    value: *value,
                    remaining_time: opt_time(*remaining_time),
                }
            },
            RawNotification::ClientMessage { args } => RawModel::ClientMessage {
                args: texts_of(args@),
            },
            RawNotification::Shutdown => RawModel::Shutdown,
            RawNotification::Idle => RawModel::Idle,
        }
    }
}

/// A notification that could not be translated. The offending notification
/// is dropped and the loop goes on; translation failures never abort it.
#[derive(Clone, Copy, Debug, PartialEq, Eq, Structural)]
pub enum TranslateError {
    /// A file-loaded notification without a filename.
    MissingFilename,
    /// An observed property change without its boolean payload.
    MissingPropertyValue,
}

/// An absent remaining-time read degrades to zero.
pub open spec fn time_or_zero(t: Option<int>) -> int {
    match t {
        Some(v) => v,
        None => 0,
    }
}

/// The key-binding prefix whose client messages toggle the presence session.
pub open spec fn toggle_prefix() -> Seq<char> {
    "key-binding toggle-rpc d-"@
}

/// Whether a joined client message asks for a toggle.
pub open spec fn is_toggle_command(command: Seq<char>) -> bool {
    spec_starts_with(command, toggle_prefix())
}

/// What `translate` returns for each raw notification.
pub open spec fn translate_spec(raw: RawModel) -> Result<Option<EventModel>, TranslateError> {
    match raw {
        RawModel::FileLoaded { filename, metadata } => match filename {
            Some(name) => Ok(
                Some(EventModel::FileLoaded(FileInfoModel { filename: name, metadata })),
            ),
            None => Err(TranslateError::MissingFilename),
        },
        RawModel::PlaybackRestart { remaining_time } => Ok(
            Some(EventModel::Seek(time_or_zero(remaining_time))),
        ),
        RawModel::PropertyChange { id, value, remaining_time } => {
            if id == PAUSE_PROPERTY_ID {
                match value {
                    Some(paused) => if paused {
                        Ok(Some(EventModel::Pause(time_or_zero(remaining_time))))
                    } else {
                        Ok(Some(EventModel::Play(time_or_zero(remaining_time))))
                    },
                    None => Err(TranslateError::MissingPropertyValue),
                }
            } else if id == BUFFERING_PROPERTY_ID {
                match value {
                    Some(buffering) => if buffering {
                        Ok(Some(EventModel::Buffering))
                    } else {
                        Ok(None)
                    },
                    None => Err(TranslateError::MissingPropertyValue),
                }
            } else {
                Ok(None)
            }
        },
        RawModel::ClientMessage { args } => if is_toggle_command(join_sep(args, " "@)) {
            Ok(Some(EventModel::Toggle))
        } else {
            Ok(None)
        },
        RawModel::Shutdown => Ok(Some(EventModel::Exit)),
        RawModel::Idle => Ok(None),
    }
}

/// The model of a translation result.
pub open spec fn translated_view(r: Result<Option<MpvEvent>, TranslateError>) -> Result<
    Option<EventModel>,
    TranslateError,
> {
    match r {
        Ok(Some(e)) => Ok(Some(e@)),
        Ok(None) => Ok(None),
        Err(e) => Err(e),
    }
}

/// Substitute zero for a failed remaining-time read.
fn unwrap_time_or_zero(t: Option<i64>) -> (r: i64)
    ensures
        r as int == time_or_zero(opt_time(t)),
{
    match t {
        Some(v) => v,
        None => 0,
    }
}

/// Translate one raw player notification into at most one domain event.
///
/// Exactly the file-loaded notification without a filename and the observed
/// property change without its payload are errors; every other notification
/// translates to its event, or to nothing for an idle tick, an unobserved
/// property, a buffering end, or a client message that is not the toggle
/// key binding.
pub fn translate(raw: RawNotification) -> (r: Result<Option<MpvEvent>, TranslateError>)
    ensures
        translated_view(r) == translate_spec(raw@),
{
    match raw {
        RawNotification::FileLoaded { filename, metadata } => match filename {
            Some(name) => Ok(Some(MpvEvent::FileLoaded(FileInfo { filename: name, metadata }))),
            None => Err(TranslateError::MissingFilename),
        },
        RawNotification::PlaybackRestart { remaining_time } => Ok(
            Some(MpvEvent::Seek(unwrap_time_or_zero(remaining_time))),
        ),
        RawNotification::PropertyChange { id, value, remaining_time } => {
            if id == PAUSE_PROPERTY_ID {
                match value {
                    Some(paused) => {
                        let time = unwrap_time_or_zero(remaining_time);
                        if paused {
                            Ok(Some(MpvEvent::Pause(time)))
                        } else {
                            Ok(Some(MpvEvent::Play(time)))
                        }
                    },
                    None => Err(TranslateError::MissingPropertyValue),
                }
            } else if id == BUFFERING_PROPERTY_ID {
                match value {
                    Some(buffering) => if buffering {
                        Ok(Some(MpvEvent::Buffering))
                    } else {
                        Ok(None)
                    },
                    None => Err(TranslateError::MissingPropertyValue),
                }
            } else {
                Ok(None)
            }
        },
        RawNotification::ClientMessage { args } => {
            let command = join_with(&args, " ");
            if str_starts_with(command.as_str(), "key-binding toggle-rpc d-") {
                Ok(Some(MpvEvent::Toggle))
            } else {
                Ok(None)
            }
        },
        RawNotification::Shutdown => Ok(Some(MpvEvent::Exit)),
        RawNotification::Idle => Ok(None),
    }
}

} // verus!
