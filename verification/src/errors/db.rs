//! The persistence layer's failures: what a store reports by itself, and one
//! variant for each leaf vocabulary, so that a leaf failure reaches the apex
//! only through this layer.

use vstd::prelude::*;
use vstd::string::*;
use vstd::std_specs::convert::FromSpecImpl;
use crate::errors::domain::{
    DestinationError,
    GetDashboardError,
    PutAlertError,
    PutDashboardError,
    TemplateError,
};

verus! {

/// A failure of the persistence layer.
#[derive(Debug)]
pub enum DbError {
    KeyNotExists(String),
    DBOperError(String, String),
    UniqueViolation,
    SeaORMError(String),
    GetDashboardError(GetDashboardError),
    PutDashboard(PutDashboardError),
    DestinationError(DestinationError),
    TemplateError(TemplateError),
    PutAlert(PutAlertError),
}

impl DbError {
    /// The rendering. Every variant that wraps a leaf failure ends with that
    /// failure's own rendering: a dashboard that could not be read or was
    /// refused renders as its own failure does, the other three under the
    /// tag of their variant.
    pub open spec fn text(&self) -> Seq<char> {
        match self {
            DbError::KeyNotExists(key) => "key "@ + key@ + " does not exist"@,
            DbError::DBOperError(operation, key) => "error "@ + operation@
                + " performing operation on key "@ + key@,
            DbError::UniqueViolation => "Unique constraint violation"@,
            DbError::SeaORMError(detail) => "SeaORMError# "@ + detail@,
            DbError::GetDashboardError(cause) => cause.text(),
            DbError::PutDashboard(cause) => cause.text(),
            DbError::DestinationError(cause) => "DestinationError# "@ + cause.text(),
            DbError::TemplateError(cause) => "TemplateError# "@ + cause.text(),
            DbError::PutAlert(cause) => "PutAlert# "@ + cause.text(),
        }
    }

    pub fn to_string(&self) -> (res: String)
        ensures
            res@ == self.text(),
    {
        match self {
            DbError::KeyNotExists(key) => String::from_str("key ").concat(key.as_str()).concat(
                " does not exist",
            ),
            DbError::DBOperError(operation, key) => String::from_str("error ").concat(
                operation.as_str(),
            ).concat(" performing operation on key ").concat(key.as_str()),
            DbError::UniqueViolation => String::from_str("Unique constraint violation"),
            DbError::SeaORMError(detail) => String::from_str("SeaORMError# ").concat(
                detail.as_str(),
            ),
            DbError::GetDashboardError(cause) => cause.to_string(),
            DbError::PutDashboard(cause) => cause.to_string(),
            DbError::DestinationError(cause) => {
                let inner = cause.to_string();
                String::from_str("DestinationError# ").concat(inner.as_str())
            },
            DbError::TemplateError(cause) => {
                let inner = cause.to_string();
                String::from_str("TemplateError# ").concat(inner.as_str())
            },
            DbError::PutAlert(cause) => {
                let inner = cause.to_string();
                String::from_str("PutAlert# ").concat(inner.as_str())
            },
        }
    }
}

impl From<GetDashboardError> for DbError {
    fn from(value: GetDashboardError) -> (res: DbError) {
        DbError::GetDashboardError(value)
    }
}

impl FromSpecImpl<GetDashboardError> for DbError {
    open spec fn obeys_from_spec() -> bool {
        true
    }

    open spec fn from_spec(value: GetDashboardError) -> DbError {
        DbError::GetDashboardError(value)
    }
}

impl From<PutDashboardError> for DbError {
    fn from(value: PutDashboardError) -> (res: DbError) {
        DbError::PutDashboard(value)
    }
}

impl FromSpecImpl<PutDashboardError> for DbError {
    open spec fn obeys_from_spec() -> bool {
        true
    }

    open spec fn from_spec(value: PutDashboardError) -> DbError {
        DbError::PutDashboard(value)
    }
}

impl From<DestinationError> for DbError {
    fn from(value: DestinationError) -> (res: DbError) {
        DbError::DestinationError(value)
    }
}

impl FromSpecImpl<DestinationError> for DbError {
    open spec fn obeys_from_spec() -> bool {
        true
    }

    open spec fn from_spec(value: DestinationError) -> DbError {
        DbError::DestinationError(value)
    }
}

impl From<TemplateError> for DbError {
    fn from(value: TemplateError) -> (res: DbError) {
        DbError::TemplateError(value)
    }
}

impl FromSpecImpl<TemplateError> for DbError {
    open spec fn obeys_from_spec() -> bool {
        true
    }

    open spec fn from_spec(value: TemplateError) -> DbError {
        DbError::TemplateError(value)
    }
}

impl From<PutAlertError> for DbError {
    fn from(value: PutAlertError) -> (res: DbError) {
        DbError::PutAlert(value)
    }
}

impl FromSpecImpl<PutAlertError> for DbError {
    open spec fn obeys_from_spec() -> bool {
        true
    }

    open spec fn from_spec(value: PutAlertError) -> DbError {
        DbError::PutAlert(value)
    }
}

} // verus!
