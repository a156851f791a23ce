//! The kinds of stream that data is kept in.

use vstd::prelude::*;

verus! {

/// The kind of a stream.
#[derive(Default, Debug, Clone, Copy, PartialEq, Eq, Hash)]
pub enum StreamType {
    #[default]
    Logs,
    Metrics,
    Traces,
    EnrichmentTables,
    Filelist,
    Metadata,
    Index,
}

} // verus!
