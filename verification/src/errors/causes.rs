//! Conversions from the causes that other libraries report. Each keeps the
//! cause by its rendering, under the variant that stands for its family.

use vstd::prelude::*;
use vstd::string::*;
use vstd::std_specs::convert::FromSpecImpl;
use crate::errors::apex::Error;
use crate::errors::db::DbError;

verus! {

/// `std::io::Error`, a failure of the file system or of another device.
#[verifier::external_type_specification]
#[verifier::external_body]
pub struct ExIoError(std::io::Error);

/// `std::string::FromUtf8Error`, bytes that are no UTF-8 text.
#[verifier::external_type_specification]
#[verifier::external_body]
pub struct ExFromUtf8Error(std::string::FromUtf8Error);

/// `sea_orm::DbErr`, a failure of the relational store's driver.
#[verifier::external_type_specification]
#[verifier::external_body]
pub struct ExDbErr(sea_orm::DbErr);

/// `datafusion::arrow::error::ArrowError`, a failure of the columnar engine.
#[verifier::external_type_specification]
#[verifier::external_body]
pub struct ExArrowError(datafusion::arrow::error::ArrowError);

impl From<std::io::Error> for Error {
    /// An I/O failure, held by what its `Display` prints.
    fn from(value: std::io::Error) -> (res: Error)
        ensures
            res matches Error::IoError(text) && to_string_from_display_ensures::<std::io::Error>(
                &value,
                text,
            ),
    {
        Error::IoError(value.to_string())
    }
}

impl FromSpecImpl<std::io::Error> for Error {
    /// What the cause prints is no function that a contract can name, so
    /// the conversion has no spec function; its own `ensures` says what
    /// comes out.
    open spec fn obeys_from_spec() -> bool {
        false
    }

    open spec fn from_spec(value: std::io::Error) -> Error {
        arbitrary()
    }
}

impl From<std::string::FromUtf8Error> for Error {
    /// A text-decoding failure, held by what its `Display` prints.
    fn from(value: std::string::FromUtf8Error) -> (res: Error)
        ensures
            res matches Error::StringUTF8Error(text) && to_string_from_display_ensures::<
                std::string::FromUtf8Error,
            >(&value, text),
    {
        Error::StringUTF8Error(value.to_string())
    }
}

impl FromSpecImpl<std::string::FromUtf8Error> for Error {
    open spec fn obeys_from_spec() -> bool {
        false
    }

    open spec fn from_spec(value: std::string::FromUtf8Error) -> Error {
        arbitrary()
    }
}

impl From<sea_orm::DbErr> for Error {
    /// A failure of the store's driver becomes a persistence failure, held
    /// by what its `Display` prints, and reaches the apex as one.
    fn from(value: sea_orm::DbErr) -> (res: Error)
        ensures
            res matches Error::DbError(DbError::SeaORMError(text))
                && to_string_from_display_ensures::<sea_orm::DbErr>(&value, text),
    {
        Error::DbError(DbError::SeaORMError(value.to_string()))
    }
}

impl FromSpecImpl<sea_orm::DbErr> for Error {
    open spec fn obeys_from_spec() -> bool {
        false
    }

    open spec fn from_spec(value: sea_orm::DbErr) -> Error {
        arbitrary()
    }
}

impl From<datafusion::arrow::error::ArrowError> for Error {
    /// A failure of the columnar engine, held by what its `Display` prints.
    fn from(value: datafusion::arrow::error::ArrowError) -> (res: Error)
        ensures
            res matches Error::ArrowError(text) && to_string_from_display_ensures::<
                datafusion::arrow::error::ArrowError,
            >(&value, text),
    {
        Error::ArrowError(value.to_string())
    }
}

impl FromSpecImpl<datafusion::arrow::error::ArrowError> for Error {
    open spec fn obeys_from_spec() -> bool {
        false
    }

    open spec fn from_spec(value: datafusion::arrow::error::ArrowError) -> Error {
        arbitrary()
    }
}

} // verus!
