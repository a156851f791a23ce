//! Failure classification for a multi-subsystem service: leaf validation
//! errors, the persistence layer that gathers them, the apex error that every
//! failure converts into, and the wire-stable registry of client-facing error
//! codes with its JSON codec. The dashboard schema that the persistence layer
//! stores is described alongside.

pub mod dashboards;
pub mod errors;
pub mod json;
pub mod stream;
pub mod text;
