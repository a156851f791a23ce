//! The registry of client-facing error codes.
//!
//! Each kind of failure has a permanent numeric code, a category label, a rule
//! for whether the label names the payload, and a rule for whether the payload
//! may be shown to an outside caller. The four rules are spec functions on
//! `ErrorKind`; the methods of `ErrorCodes` are proved against them.

use vstd::prelude::*;
use vstd::string::*;

verus! {

/// A classified query or search failure, with the detail it carries.
#[derive(Debug)]
pub enum ErrorCodes {
    ServerInternalError(String),
    SearchSQLNotValid(String),
    SearchStreamNotFound(String),
    FullTextSearchFieldNotFound,
    SearchFieldNotFound(String),
    SearchFunctionNotDefined(String),
    SearchParquetFileNotFound,
    SearchFieldHasNoCompatibleDataType(String),
    SearchSQLExecuteError(String),
    SearchCancelQuery(String),
    SearchTimeout(String),
    InvalidParams(String),
    RatelimitExceeded(String),
}

/// The kind of a classified failure: its variant without the payload.
#[derive(Clone, Copy, Debug, PartialEq, Eq)]
pub enum ErrorKind {
    ServerInternalError,
    SearchSQLNotValid,
    SearchStreamNotFound,
    FullTextSearchFieldNotFound,
    SearchFieldNotFound,
    SearchFunctionNotDefined,
    SearchParquetFileNotFound,
    SearchFieldHasNoCompatibleDataType,
    SearchSQLExecuteError,
    SearchCancelQuery,
    SearchTimeout,
    InvalidParams,
    RatelimitExceeded,
}

/// A classified failure as a mathematical value: its kind and its payload,
/// which is empty for a kind that carries none.
pub struct ErrorCodesView {
    pub kind: ErrorKind,
    pub payload: Seq<char>,
}

impl View for ErrorCodes {
    type V = ErrorCodesView;

    open spec fn view(&self) -> ErrorCodesView {
        match self {
            ErrorCodes::ServerInternalError(s) => ErrorCodesView {
                kind: ErrorKind::ServerInternalError,
                payload: s@,
            },
            ErrorCodes::SearchSQLNotValid(s) => ErrorCodesView {
                kind: ErrorKind::SearchSQLNotValid,
                payload: s@,
            },
            ErrorCodes::SearchStreamNotFound(s) => ErrorCodesView {
                kind: ErrorKind::SearchStreamNotFound,
                payload: s@,
            },
            ErrorCodes::FullTextSearchFieldNotFound => ErrorCodesView {
                kind: ErrorKind::FullTextSearchFieldNotFound,
                payload: Seq::empty(),
            },
            ErrorCodes::SearchFieldNotFound(s) => ErrorCodesView {
                kind: ErrorKind::SearchFieldNotFound,
                payload: s@,
            },
            ErrorCodes::SearchFunctionNotDefined(s) => ErrorCodesView {
                kind: ErrorKind::SearchFunctionNotDefined,
                payload: s@,
            },
            ErrorCodes::SearchParquetFileNotFound => ErrorCodesView {
                kind: ErrorKind::SearchParquetFileNotFound,
                payload: Seq::empty(),
            },
            ErrorCodes::SearchFieldHasNoCompatibleDataType(s) => ErrorCodesView {
                kind: ErrorKind::SearchFieldHasNoCompatibleDataType,
                payload: s@,
            },
            ErrorCodes::SearchSQLExecuteError(s) => ErrorCodesView {
                kind: ErrorKind::SearchSQLExecuteError,
                payload: s@,
            },
            ErrorCodes::SearchCancelQuery(s) => ErrorCodesView {
                kind: ErrorKind::SearchCancelQuery,
                payload: s@,
            },
            ErrorCodes::SearchTimeout(s) => ErrorCodesView {
                kind: ErrorKind::SearchTimeout,
                payload: s@,
            },
            ErrorCodes::InvalidParams(s) => ErrorCodesView {
                kind: ErrorKind::InvalidParams,
                payload: s@,
            },
            ErrorCodes::RatelimitExceeded(s) => ErrorCodesView {
                kind: ErrorKind::RatelimitExceeded,
                payload: s@,
            },
        }
    }
}

/// The permanent wire code of a kind.
pub open spec fn code_of(kind: ErrorKind) -> u16 {
    match kind {
        ErrorKind::ServerInternalError => 10001,
        ErrorKind::SearchSQLNotValid => 20001,
        ErrorKind::SearchStreamNotFound => 20002,
        ErrorKind::FullTextSearchFieldNotFound => 20003,
        ErrorKind::SearchFieldNotFound => 20004,
        ErrorKind::SearchFunctionNotDefined => 20005,
        ErrorKind::SearchParquetFileNotFound => 20006,
        ErrorKind::SearchFieldHasNoCompatibleDataType => 20007,
        ErrorKind::SearchSQLExecuteError => 20008,
        ErrorKind::SearchCancelQuery => 20009,
        ErrorKind::SearchTimeout => 20010,
        ErrorKind::InvalidParams => 20011,
        ErrorKind::RatelimitExceeded => 20012,
    }
}

/// The category label of a kind.
pub open spec fn label_of(kind: ErrorKind) -> Seq<char> {
    match kind {
        ErrorKind::ServerInternalError => "Server Internal Error"@,
        ErrorKind::SearchSQLNotValid => "Search SQL not valid"@,
        ErrorKind::SearchStreamNotFound => "Search stream not found"@,
        ErrorKind::FullTextSearchFieldNotFound => "Full text search field not found"@,
        ErrorKind::SearchFieldNotFound => "Search field not found"@,
        ErrorKind::SearchFunctionNotDefined => "Search function not defined"@,
        ErrorKind::SearchParquetFileNotFound => "Search parquet file not found"@,
        ErrorKind::SearchFieldHasNoCompatibleDataType => "Search field has no compatible data type"@,
        ErrorKind::SearchSQLExecuteError => "Search SQL execute error"@,
        ErrorKind::SearchCancelQuery => "Search query was cancelled"@,
        ErrorKind::SearchTimeout => "Search query timed out"@,
        ErrorKind::InvalidParams => "Invalid parameters"@,
        ErrorKind::RatelimitExceeded => "Ratelimit exceeded"@,
    }
}

/// Whether a kind carries a payload at all.
pub open spec fn carries_payload(kind: ErrorKind) -> bool {
    kind != ErrorKind::FullTextSearchFieldNotFound && kind != ErrorKind::SearchParquetFileNotFound
}

/// Whether the payload of a kind is the name of a stream, field or function,
/// which the category message then shows behind the label.
pub open spec fn names_subject(kind: ErrorKind) -> bool {
    kind == ErrorKind::SearchStreamNotFound || kind == ErrorKind::SearchFieldNotFound || kind
        == ErrorKind::SearchFunctionNotDefined || kind
        == ErrorKind::SearchFieldHasNoCompatibleDataType
}

/// Whether the payload of a kind may be shown to an outside caller as detail.
pub open spec fn exposes_detail(kind: ErrorKind) -> bool {
    kind == ErrorKind::ServerInternalError || kind == ErrorKind::SearchSQLNotValid || kind
        == ErrorKind::SearchSQLExecuteError || kind == ErrorKind::SearchCancelQuery || kind
        == ErrorKind::SearchTimeout || kind == ErrorKind::InvalidParams || kind
        == ErrorKind::RatelimitExceeded
}

/// A view is well formed when a kind without payload has the empty payload.
/// Every `ErrorCodes` value has a well-formed view.
pub open spec fn well_formed(v: ErrorCodesView) -> bool {
    !carries_payload(v.kind) ==> v.payload == Seq::<char>::empty()
}

/// The category message: the label, followed by a colon, a space and the
/// payload where the payload names the subject of the failure.
pub open spec fn message_of(v: ErrorCodesView) -> Seq<char> {
    if names_subject(v.kind) {
        label_of(v.kind) + ": "@ + v.payload
    } else {
        label_of(v.kind)
    }
}

/// The detail shown to an outside caller: the payload where the kind exposes
/// it, the empty text otherwise.
pub open spec fn detail_of(v: ErrorCodesView) -> Seq<char> {
    if exposes_detail(v.kind) {
        v.payload
    } else {
        Seq::empty()
    }
}

impl ErrorCodes {
    /// The wire code, which the kind alone decides.
    pub fn get_code(&self) -> (code: u16)
        ensures
            code == code_of(self@.kind),
    {
        match self {
            ErrorCodes::ServerInternalError(_) => 10001,
            ErrorCodes::SearchSQLNotValid(_) => 20001,
            ErrorCodes::SearchStreamNotFound(_) => 20002,
            ErrorCodes::FullTextSearchFieldNotFound => 20003,
            ErrorCodes::SearchFieldNotFound(_) => 20004,
            ErrorCodes::SearchFunctionNotDefined(_) => 20005,
            ErrorCodes::SearchParquetFileNotFound => 20006,
            ErrorCodes::SearchFieldHasNoCompatibleDataType(_) => 20007,
            ErrorCodes::SearchSQLExecuteError(_) => 20008,
            ErrorCodes::SearchCancelQuery(_) => 20009,
            ErrorCodes::SearchTimeout(_) => 20010,
            ErrorCodes::InvalidParams(_) => 20011,
            ErrorCodes::RatelimitExceeded(_) => 20012,
        }
    }

    /// The category message.
    pub fn get_message(&self) -> (message: String)
        ensures
            message@ == message_of(self@),
    {
        match self {
            ErrorCodes::ServerInternalError(_) => String::from_str("Server Internal Error"),
            ErrorCodes::SearchSQLNotValid(_) => String::from_str("Search SQL not valid"),
            ErrorCodes::SearchStreamNotFound(stream) => {
                subject_message("Search stream not found", stream)
            },
            ErrorCodes::FullTextSearchFieldNotFound => {
                String::from_str("Full text search field not found")
            },
            ErrorCodes::SearchFieldNotFound(field) => {
                subject_message("Search field not found", field)
            },
            ErrorCodes::SearchFunctionNotDefined(func) => {
                subject_message("Search function not defined", func)
            },
            ErrorCodes::SearchParquetFileNotFound => {
                String::from_str("Search parquet file not found")
            },
            ErrorCodes::SearchFieldHasNoCompatibleDataType(field) => {
                subject_message("Search field has no compatible data type", field)
            },
            ErrorCodes::SearchSQLExecuteError(_) => String::from_str("Search SQL execute error"),
            ErrorCodes::SearchCancelQuery(_) => String::from_str("Search query was cancelled"),
            ErrorCodes::SearchTimeout(_) => String::from_str("Search query timed out"),
            ErrorCodes::InvalidParams(_) => String::from_str("Invalid parameters"),
            ErrorCodes::RatelimitExceeded(_) => String::from_str("Ratelimit exceeded"),
        }
    }

    /// The payload as it was given, or the empty text for a kind without one.
    pub fn get_inner_message(&self) -> (inner: String)
        ensures
            inner@ == self@.payload,
    {
        match self {
            ErrorCodes::ServerInternalError(msg) => msg.clone(),
            ErrorCodes::SearchSQLNotValid(sql) => sql.clone(),
            ErrorCodes::SearchStreamNotFound(stream) => stream.clone(),
            ErrorCodes::FullTextSearchFieldNotFound => String::new(),
            ErrorCodes::SearchFieldNotFound(field) => field.clone(),
            ErrorCodes::SearchFunctionNotDefined(func) => func.clone(),
            ErrorCodes::SearchParquetFileNotFound => String::new(),
            ErrorCodes::SearchFieldHasNoCompatibleDataType(field) => field.clone(),
            ErrorCodes::SearchSQLExecuteError(msg) => msg.clone(),
            ErrorCodes::SearchCancelQuery(msg) => msg.clone(),
            ErrorCodes::SearchTimeout(msg) => msg.clone(),
            ErrorCodes::InvalidParams(msg) => msg.clone(),
            ErrorCodes::RatelimitExceeded(msg) => msg.clone(),
        }
    }

    /// The detail that may be shown to an outside caller.
    pub fn get_error_detail(&self) -> (detail: String)
        ensures
            detail@ == detail_of(self@),
    {
        match self {
            ErrorCodes::ServerInternalError(msg) => msg.clone(),
            ErrorCodes::SearchSQLNotValid(sql) => sql.clone(),
            ErrorCodes::SearchStreamNotFound(_) => String::new(),
            ErrorCodes::FullTextSearchFieldNotFound => String::new(),
            ErrorCodes::SearchFieldNotFound(_) => String::new(),
            ErrorCodes::SearchFunctionNotDefined(_) => String::new(),
            ErrorCodes::SearchParquetFileNotFound => String::new(),
            ErrorCodes::SearchFieldHasNoCompatibleDataType(_) => String::new(),
            ErrorCodes::SearchSQLExecuteError(msg) => msg.clone(),
            ErrorCodes::SearchCancelQuery(msg) => msg.clone(),
            ErrorCodes::SearchTimeout(msg) => msg.clone(),
            ErrorCodes::InvalidParams(msg) => msg.clone(),
            ErrorCodes::RatelimitExceeded(msg) => msg.clone(),
        }
    }
}

/// A label, a colon, a space and the subject.
fn subject_message(label: &str, subject: &String) -> (message: String)
    ensures
        message@ == label@ + ": "@ + subject@,
{
    String::from_str(label).concat(": ").concat(subject.as_str())
}

} // verus!
