//! The leaf vocabularies: small closed sets of failures that are found before
//! anything is written, each with its own rendering.

use vstd::prelude::*;
use vstd::string::*;
use crate::text::{decimal_i64, decimal_int};

verus! {

/// A text could not be read as a value of the named type.
#[derive(Debug)]
pub struct FromStrError {
    pub value: String,
    pub ty: String,
}

impl FromStrError {
    /// The rendering: the text in double quotes, then the type.
    pub open spec fn text(&self) -> Seq<char> {
        "cannot parse \""@ + self.value@ + "\" as "@ + self.ty@
    }

    pub fn to_string(&self) -> (res: String)
        ensures
            res@ == self.text(),
    {
        String::from_str("cannot parse \"").concat(self.value.as_str()).concat("\" as ").concat(
            self.ty.as_str(),
        )
    }
}

/// A 16-bit number could not be narrowed to a value of the named type.
#[derive(Debug)]
pub struct FromI16Error {
    pub value: i16,
    pub ty: String,
}

impl FromI16Error {
    /// The rendering: the number in double quotes, then the type.
    pub open spec fn text(&self) -> Seq<char> {
        "cannot convert \""@ + decimal_int(self.value as int) + "\" to "@ + self.ty@
    }

    pub fn to_string(&self) -> (res: String)
        ensures
            res@ == self.text(),
    {
        let number = decimal_i64(self.value as i64);
        String::from_str("cannot convert \"").concat(number.as_str()).concat("\" to ").concat(
            self.ty.as_str(),
        )
    }
}

/// A stored dashboard could not be read.
#[derive(Debug)]
pub enum GetDashboardError {
    /// The stored document declares a schema version that the reader does
    /// not know.
    UnsupportedVersion(i32),
}

impl GetDashboardError {
    pub open spec fn text(&self) -> Seq<char> {
        match self {
            GetDashboardError::UnsupportedVersion(version) => "dashboard in DB has version "@
                + decimal_int(*version as int) + " which cannot be deserialized"@,
        }
    }

    pub fn to_string(&self) -> (res: String)
        ensures
            res@ == self.text(),
    {
        match self {
            GetDashboardError::UnsupportedVersion(version) => {
                let number = decimal_i64(*version as i64);
                String::from_str("dashboard in DB has version ").concat(number.as_str()).concat(
                    " which cannot be deserialized",
                )
            },
        }
    }
}

/// A dashboard was refused before it was written.
#[derive(Debug)]
pub enum PutDashboardError {
    FolderDoesNotExist,
    MissingDashboardId,
    MissingTitle,
    MissingOwner,
    MissingInnerData(i32),
}

impl PutDashboardError {
    pub open spec fn text(&self) -> Seq<char> {
        match self {
            PutDashboardError::FolderDoesNotExist => "error putting dashboard with folder that does not exist"@,
            PutDashboardError::MissingDashboardId => "error putting dashboard with missing dashboard_id"@,
            PutDashboardError::MissingTitle => "error putting dashboard with missing title"@,
            PutDashboardError::MissingOwner => "error putting dashboard with missing owner"@,
            PutDashboardError::MissingInnerData(version) => "error putting dashboard with missing inner data for version "@
                + decimal_int(*version as int),
        }
    }

    pub fn to_string(&self) -> (res: String)
        ensures
            res@ == self.text(),
    {
        match self {
            PutDashboardError::FolderDoesNotExist => String::from_str(
                "error putting dashboard with folder that does not exist",
            ),
            PutDashboardError::MissingDashboardId => String::from_str(
                "error putting dashboard with missing dashboard_id",
            ),
            PutDashboardError::MissingTitle => String::from_str(
                "error putting dashboard with missing title",
            ),
            PutDashboardError::MissingOwner => String::from_str(
                "error putting dashboard with missing owner",
            ),
            PutDashboardError::MissingInnerData(version) => {
                let number = decimal_i64(*version as i64);
                String::from_str(
                    "error putting dashboard with missing inner data for version ",
                ).concat(number.as_str())
            },
        }
    }
}

/// An alert was refused before it was written. An alert that is created must
/// come without an identifier and one that is updated must come with one.
#[derive(Debug)]
pub enum PutAlertError {
    CreateAlertSetID,
    UpdateAlertMissingID,
    UpdateAlertNotFound,
    FolderDoesNotExist,
    /// The operator, by its rendering, has no counterpart among the
    /// comparisons of a trigger threshold.
    IntoTriggerThresholdOperator(String),
}

impl PutAlertError {
    pub open spec fn text(&self) -> Seq<char> {
        match self {
            PutAlertError::CreateAlertSetID => "cannot provide alert ID when creating an alert"@,
            PutAlertError::UpdateAlertMissingID => "must provide alert ID when updating an alert"@,
            PutAlertError::UpdateAlertNotFound => "alert to update not found"@,
            PutAlertError::FolderDoesNotExist => "error putting alert with folder that does not exist"@,
            PutAlertError::IntoTriggerThresholdOperator(operator) => "cannot convert "@
                + operator@ + " into a trigger threshold operator"@,
        }
    }

    pub fn to_string(&self) -> (res: String)
        ensures
            res@ == self.text(),
    {
        match self {
            PutAlertError::CreateAlertSetID => String::from_str(
                "cannot provide alert ID when creating an alert",
            ),
            PutAlertError::UpdateAlertMissingID => String::from_str(
                "must provide alert ID when updating an alert",
            ),
            PutAlertError::UpdateAlertNotFound => String::from_str("alert to update not found"),
            PutAlertError::FolderDoesNotExist => String::from_str(
                "error putting alert with folder that does not exist",
            ),
            PutAlertError::IntoTriggerThresholdOperator(operator) => String::from_str(
                "cannot convert ",
            ).concat(operator.as_str()).concat(" into a trigger threshold operator"),
        }
    }
}

/// An alert destination failed a referential or identifier check.
#[derive(Debug)]
pub enum DestinationError {
    AlertDestTemplateNotFound,
    AlertDestEmptyTemplateId,
    ConvertingId(String),
}

impl DestinationError {
    pub open spec fn text(&self) -> Seq<char> {
        match self {
            DestinationError::AlertDestTemplateNotFound => "alert destination template not found"@,
            DestinationError::AlertDestEmptyTemplateId => "alert destination in DB has empty template id"@,
            DestinationError::ConvertingId(detail) => "error converting destination id: "@
                + detail@,
        }
    }

    pub fn to_string(&self) -> (res: String)
        ensures
            res@ == self.text(),
    {
        match self {
            DestinationError::AlertDestTemplateNotFound => String::from_str(
                "alert destination template not found",
            ),
            DestinationError::AlertDestEmptyTemplateId => String::from_str(
                "alert destination in DB has empty template id",
            ),
            DestinationError::ConvertingId(detail) => String::from_str(
                "error converting destination id: ",
            ).concat(detail.as_str()),
        }
    }
}

/// A template failed an identifier check.
#[derive(Debug)]
pub enum TemplateError {
    ConvertingId(String),
}

impl TemplateError {
    pub open spec fn text(&self) -> Seq<char> {
        match self {
            TemplateError::ConvertingId(detail) => "error converting template id: "@ + detail@,
        }
    }

    pub fn to_string(&self) -> (res: String)
        ensures
            res@ == self.text(),
    {
        match self {
            TemplateError::ConvertingId(detail) => String::from_str(
                "error converting template id: ",
            ).concat(detail.as_str()),
        }
    }
}

/// A signed token was refused.
#[derive(Debug)]
pub enum JwtError {
    KeyNotExists(),
    MissingAttribute(String),
    ValidationFailed(),
}

impl JwtError {
    pub open spec fn text(&self) -> Seq<char> {
        match self {
            JwtError::KeyNotExists() => "No matching JWK found for the given kid"@,
            JwtError::MissingAttribute(name) => "Token doesn't have a "@ + name@ + " field"@,
            JwtError::ValidationFailed() => "Token can't be verified"@,
        }
    }

    pub fn to_string(&self) -> (res: String)
        ensures
            res@ == self.text(),
    {
        match self {
            JwtError::KeyNotExists() => String::from_str("No matching JWK found for the given kid"),
            JwtError::MissingAttribute(name) => String::from_str("Token doesn't have a ").concat(
                name.as_str(),
            ).concat(" field"),
            JwtError::ValidationFailed() => String::from_str("Token can't be verified"),
        }
    }
}

} // verus!
