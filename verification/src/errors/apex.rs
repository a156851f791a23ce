//! The apex error: the one type that every failure converts into.
//!
//! A cause that comes from another subsystem is held by its rendering, an
//! owned text, so that an apex error can be handed to any thread whatever
//! the cause was made of.

use vstd::prelude::*;
use vstd::string::*;
use vstd::std_specs::convert::FromSpecImpl;
use crate::errors::codec::record_of;
use crate::errors::codes::ErrorCodes;
use crate::errors::db::DbError;
use crate::errors::domain::{
    DestinationError,
    FromI16Error,
    FromStrError,
    GetDashboardError,
    PutDashboardError,
    TemplateError,
};
use crate::json::json_text;

verus! {

/// A failure of any subsystem.
#[derive(Debug)]
pub enum Error {
    IoError(String),
    DbError(DbError),
    EtcdError(String),
    FromStrError(FromStrError),
    FromI16Error(FromI16Error),
    SerdeJsonError(String),
    ArrowError(String),
    WatcherExists(String),
    StringUTF8Error(String),
    SqlxError(String),
    NatsKJetstreamContextRequestError(String),
    NatsJetstreamContextCreateKeyValueError(String),
    NatsJetstreamKvEntryError(String),
    NatsKJetstreamKvPutError(String),
    NatsKJetstreamKvUpdateError(String),
    NatsKJetstreamKvWatchError(String),
    NatsKJetstreamKvWatcherError(String),
    NatsKJetstreamKvStatusError(String),
    NatsKJetstreamCreateStreamError(String),
    NatsKJetstreamGetStreamError(String),
    NatsKJetstreamPublishError(String),
    NatsKJetstreamStreamConsumerError(String),
    NatsKJetstreamConsumerStreamError(String),
    Message(String),
    ErrorCode(ErrorCodes),
    NotImplemented,
    Unknown,
    Reqwest(String),
    ResourceError(String),
    IngestionError(String),
    WalFileError(String),
    OtherError(String),
}

impl Error {
    /// Whether the variant renders as a tag and a cause. The two variants
    /// without a cause render as a fixed sentence.
    pub open spec fn is_tagged(&self) -> bool {
        !(self is NotImplemented) && !(self is Unknown)
    }

    /// The fixed tag of a variant.
    pub open spec fn tag(&self) -> Seq<char> {
        match self {
            Error::IoError(_) => "IoError"@,
            Error::DbError(_) => "DbError"@,
            Error::EtcdError(_) => "EtcdError"@,
            Error::FromStrError(_) => "FromStrError"@,
            Error::FromI16Error(_) => "FromI16Error"@,
            Error::SerdeJsonError(_) => "SerdeJsonError"@,
            Error::ArrowError(_) => "ArrowError"@,
            Error::WatcherExists(_) => "WatchError"@,
            Error::StringUTF8Error(_) => "StringUTF8Error"@,
            Error::SqlxError(_) => "SqlxError"@,
            Error::ErrorCode(_) => "ErrorCode"@,
            _ => "Error"@,
        }
    }

    /// The rendering of what a variant wraps.
    pub open spec fn cause_text(&self) -> Seq<char> {
        match self {
            Error::IoError(cause) => cause@,
            Error::DbError(cause) => cause.text(),
            Error::EtcdError(cause) => cause@,
            Error::FromStrError(cause) => cause.text(),
            Error::FromI16Error(cause) => cause.text(),
            Error::SerdeJsonError(cause) => cause@,
            Error::ArrowError(cause) => cause@,
            Error::WatcherExists(name) => "watcher is exists "@ + name@,
            Error::StringUTF8Error(cause) => cause@,
            Error::SqlxError(cause) => cause@,
            Error::NatsKJetstreamContextRequestError(cause) => cause@,
            Error::NatsJetstreamContextCreateKeyValueError(cause) => cause@,
            Error::NatsJetstreamKvEntryError(cause) => cause@,
            Error::NatsKJetstreamKvPutError(cause) => cause@,
            Error::NatsKJetstreamKvUpdateError(cause) => cause@,
            Error::NatsKJetstreamKvWatchError(cause) => cause@,
            Error::NatsKJetstreamKvWatcherError(cause) => cause@,
            Error::NatsKJetstreamKvStatusError(cause) => cause@,
            Error::NatsKJetstreamCreateStreamError(cause) => cause@,
            Error::NatsKJetstreamGetStreamError(cause) => cause@,
            Error::NatsKJetstreamPublishError(cause) => cause@,
            Error::NatsKJetstreamStreamConsumerError(cause) => cause@,
            Error::NatsKJetstreamConsumerStreamError(cause) => cause@,
            Error::Message(message) => message@,
            Error::ErrorCode(code) => json_text(record_of(code@)),
            Error::NotImplemented => Seq::empty(),
            Error::Unknown => Seq::empty(),
            Error::Reqwest(cause) => cause@,
            Error::ResourceError(message) => message@,
            Error::IngestionError(message) => message@,
            Error::WalFileError(message) => message@,
            Error::OtherError(cause) => cause@,
        }
    }

    /// The rendering: the tag, a hash sign, a space and the cause; or the
    /// fixed sentence of a variant without a cause.
    pub open spec fn text(&self) -> Seq<char> {
        match self {
            Error::NotImplemented => "Not implemented"@,
            Error::Unknown => "Unknown error"@,
            _ => self.tag() + "# "@ + self.cause_text(),
        }
    }

    pub fn to_string(&self) -> (res: String)
        ensures
            res@ == self.text(),
    {
        match self {
            Error::IoError(cause) => tagged("IoError", cause.as_str()),
            Error::DbError(cause) => {
                let inner = cause.to_string();
                tagged("DbError", inner.as_str())
            },
            Error::EtcdError(cause) => tagged("EtcdError", cause.as_str()),
            Error::FromStrError(cause) => {
                let inner = cause.to_string();
                tagged("FromStrError", inner.as_str())
            },
            Error::FromI16Error(cause) => {
                let inner = cause.to_string();
                tagged("FromI16Error", inner.as_str())
            },
            Error::SerdeJsonError(cause) => tagged("SerdeJsonError", cause.as_str()),
            Error::ArrowError(cause) => tagged("ArrowError", cause.as_str()),
            Error::WatcherExists(name) => {
                let inner = String::from_str("watcher is exists ").concat(name.as_str());
                tagged("WatchError", inner.as_str())
            },
            Error::StringUTF8Error(cause) => tagged("StringUTF8Error", cause.as_str()),
            Error::SqlxError(cause) => tagged("SqlxError", cause.as_str()),
            Error::NatsKJetstreamContextRequestError(cause) => tagged("Error", cause.as_str()),
            Error::NatsJetstreamContextCreateKeyValueError(cause) => tagged(
                "Error",
                cause.as_str(),
            ),
            Error::NatsJetstreamKvEntryError(cause) => tagged("Error", cause.as_str()),
            Error::NatsKJetstreamKvPutError(cause) => tagged("Error", cause.as_str()),
            Error::NatsKJetstreamKvUpdateError(cause) => tagged("Error", cause.as_str()),
            Error::NatsKJetstreamKvWatchError(cause) => tagged("Error", cause.as_str()),
            Error::NatsKJetstreamKvWatcherError(cause) => tagged("Error", cause.as_str()),
            Error::NatsKJetstreamKvStatusError(cause) => tagged("Error", cause.as_str()),
            Error::NatsKJetstreamCreateStreamError(cause) => tagged("Error", cause.as_str()),
            Error::NatsKJetstreamGetStreamError(cause) => tagged("Error", cause.as_str()),
            Error::NatsKJetstreamPublishError(cause) => tagged("Error", cause.as_str()),
            Error::NatsKJetstreamStreamConsumerError(cause) => tagged("Error", cause.as_str()),
            Error::NatsKJetstreamConsumerStreamError(cause) => tagged("Error", cause.as_str()),
            Error::Message(message) => tagged("Error", message.as_str()),
            Error::ErrorCode(code) => {
                let inner = code.to_json();
                tagged("ErrorCode", inner.as_str())
            },
            Error::NotImplemented => String::from_str("Not implemented"),
            Error::Unknown => String::from_str("Unknown error"),
            Error::Reqwest(cause) => tagged("Error", cause.as_str()),
            Error::ResourceError(message) => tagged("Error", message.as_str()),
            Error::IngestionError(message) => tagged("Error", message.as_str()),
            Error::WalFileError(message) => tagged("Error", message.as_str()),
            Error::OtherError(cause) => tagged("Error", cause.as_str()),
        }
    }
}

/// A tag, a hash sign, a space and a cause.
fn tagged(tag: &str, cause: &str) -> (res: String)
    ensures
        res@ == tag@ + "# "@ + cause@,
{
    String::from_str(tag).concat("# ").concat(cause)
}

impl From<DbError> for Error {
    fn from(value: DbError) -> (res: Error) {
        Error::DbError(value)
    }
}

impl FromSpecImpl<DbError> for Error {
    open spec fn obeys_from_spec() -> bool {
        true
    }

    open spec fn from_spec(value: DbError) -> Error {
        Error::DbError(value)
    }
}

impl From<FromStrError> for Error {
    fn from(value: FromStrError) -> (res: Error) {
        Error::FromStrError(value)
    }
}

impl FromSpecImpl<FromStrError> for Error {
    open spec fn obeys_from_spec() -> bool {
        true
    }

    open spec fn from_spec(value: FromStrError) -> Error {
        Error::FromStrError(value)
    }
}

impl From<FromI16Error> for Error {
    fn from(value: FromI16Error) -> (res: Error) {
        Error::FromI16Error(value)
    }
}

impl FromSpecImpl<FromI16Error> for Error {
    open spec fn obeys_from_spec() -> bool {
        true
    }

    open spec fn from_spec(value: FromI16Error) -> Error {
        Error::FromI16Error(value)
    }
}

impl From<GetDashboardError> for Error {
    fn from(value: GetDashboardError) -> (res: Error) {
        Error::DbError(DbError::from(value))
    }
}

impl FromSpecImpl<GetDashboardError> for Error {
    open spec fn obeys_from_spec() -> bool {
        true
    }

    open spec fn from_spec(value: GetDashboardError) -> Error {
        Error::DbError(DbError::GetDashboardError(value))
    }
}

impl From<PutDashboardError> for Error {
    fn from(value: PutDashboardError) -> (res: Error) {
        Error::DbError(DbError::from(value))
    }
}

impl FromSpecImpl<PutDashboardError> for Error {
    open spec fn obeys_from_spec() -> bool {
        true
    }

    open spec fn from_spec(value: PutDashboardError) -> Error {
        Error::DbError(DbError::PutDashboard(value))
    }
}

impl From<DestinationError> for Error {
    fn from(value: DestinationError) -> (res: Error) {
        Error::DbError(DbError::from(value))
    }
}

impl FromSpecImpl<DestinationError> for Error {
    open spec fn obeys_from_spec() -> bool {
        true
    }

    open spec fn from_spec(value: DestinationError) -> Error {
        Error::DbError(DbError::DestinationError(value))
    }
}

impl From<TemplateError> for Error {
    fn from(value: TemplateError) -> (res: Error) {
        Error::DbError(DbError::from(value))
    }
}

impl FromSpecImpl<TemplateError> for Error {
    open spec fn obeys_from_spec() -> bool {
        true
    }

    open spec fn from_spec(value: TemplateError) -> Error {
        Error::DbError(DbError::TemplateError(value))
    }
}

} // verus!
