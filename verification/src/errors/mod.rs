//! The failure taxonomy, leaves first.

pub mod apex;
pub mod causes;
pub mod codec;
pub mod codes;
pub mod db;
pub mod domain;
pub mod laws;

pub use apex::Error;
pub use codes::{ErrorCodes, ErrorKind};
pub use db::DbError;
pub use domain::{
    DestinationError,
    FromI16Error,
    FromStrError,
    GetDashboardError,
    JwtError,
    PutAlertError,
    PutDashboardError,
    TemplateError,
};
