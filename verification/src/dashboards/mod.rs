//! Dashboards as the persistence layer stores them.

use std::hash::{DefaultHasher, Hash, Hasher};
use vstd::prelude::*;
use vstd::std_specs::convert::FromSpecImpl;
use vstd::std_specs::hash::DefaultHasherAdditionalSpecFns;
use crate::text::{decimal_nat, decimal_u64};

pub mod v5;

verus! {

/// A number with a fractional part, held by the bit pattern of its 64-bit
/// binary form, so that two such numbers can be compared and hashed like
/// any other field.
#[derive(Debug, Clone, Copy, PartialEq, Eq, Hash)]
pub struct OrdF64 {
    pub bits: u64,
}

/// A moment in time, told at a fixed offset from UTC: the seconds and
/// nanoseconds since the start of 1970 in UTC, and the offset in seconds
/// east of UTC.
#[derive(Debug, Clone, Copy, PartialEq, Eq, Hash)]
pub struct FixedDateTime {
    pub seconds: i64,
    pub nanos: u32,
    pub offset_seconds: i32,
}

/// The schema version that `v5::Dashboard` is written in.
pub const CURRENT_VERSION: i32 = 5;

/// A dashboard as it is stored: the schema version it is written in, the
/// dashboard itself, a digest of its contents by which a change is noticed,
/// and the time of its last update. Only the fifth schema version is held.
#[derive(Debug, Clone, PartialEq)]
pub struct Dashboard {
    pub v5: Option<v5::Dashboard>,
    pub version: i32,
    pub hash: String,
    pub updated_at: i64,
}

/// The writes by which `std::hash::Hasher::write_i32` feeds a number to a
/// hasher. They are the same for the same number on one platform and under
/// one release of the standard library; the standard library does not
/// promise them to be the same across platforms or releases.
pub uninterp spec fn version_feed(version: i32) -> Seq<Seq<u8>>;

/// The writes by which `std::hash::Hash::hash` feeds a dashboard to a
/// hasher, field by field. They are the same for equal dashboards on one
/// platform and under one release of the standard library; the standard
/// library does not promise them to be the same across platforms or
/// releases.
pub uninterp spec fn dashboard_feed(value: v5::Dashboard) -> Seq<Seq<u8>>;

/// The digest of a dashboard: what the standard hasher, fresh, makes of the
/// current version followed by the dashboard.
pub open spec fn digest_of(value: v5::Dashboard) -> u64 {
    DefaultHasher::spec_finish(
        Seq::<Seq<u8>>::empty() + version_feed(CURRENT_VERSION) + dashboard_feed(value),
    )
}

/// `std::hash::Hasher::write_i32`, on a `DefaultHasher`: the hasher has
/// taken what it had taken before, and then the writes for the number.
#[verifier::external_body]
fn feed_version(hasher: &mut DefaultHasher, version: i32)
    ensures
        final(hasher)@ == old(hasher)@ + version_feed(version),
{
    hasher.write_i32(version);
}

/// `std::hash::Hash::hash`, on a dashboard: the hasher has taken what it
/// had taken before, and then the writes for the dashboard.
#[verifier::external_body]
fn feed_dashboard(hasher: &mut DefaultHasher, value: &v5::Dashboard)
    ensures
        final(hasher)@ == old(hasher)@ + dashboard_feed(*value),
{
    value.hash(hasher);
}

impl Dashboard {
    /// Stores a dashboard under a digest that the caller has computed: the
    /// version is the current one, the hash is the digest in decimal, and
    /// the time of the last update is the dashboard's own.
    pub fn with_digest(value: v5::Dashboard, digest: u64) -> (res: Dashboard)
        ensures
            res.version == CURRENT_VERSION,
            res.hash@ == decimal_nat(digest as nat),
            res.updated_at == value.updated_at,
            res.v5 == Some(value),
    {
        let hash = decimal_u64(digest);
        let updated_at = value.updated_at;
        Dashboard { v5: Some(value), version: CURRENT_VERSION, hash, updated_at }
    }
}

impl From<v5::Dashboard> for Dashboard {
    /// Stores a dashboard under its digest: the hash is the digest in
    /// decimal, so that equal dashboards are stored under equal hashes.
    fn from(value: v5::Dashboard) -> (res: Dashboard)
        ensures
            res.version == CURRENT_VERSION,
            res.hash@ == decimal_nat(digest_of(value) as nat),
            res.updated_at == value.updated_at,
            res.v5 == Some(value),
    {
        let mut hasher = DefaultHasher::new();
        feed_version(&mut hasher, CURRENT_VERSION);
        feed_dashboard(&mut hasher, &value);
        let digest = hasher.finish();
        Dashboard::with_digest(value, digest)
    }
}

impl FromSpecImpl<v5::Dashboard> for Dashboard {
    /// A stored dashboard holds its hash as a text, which no spec function
    /// can build, so the conversion has no spec function; its own `ensures`
    /// says what comes out.
    open spec fn obeys_from_spec() -> bool {
        false
    }

    open spec fn from_spec(value: v5::Dashboard) -> Dashboard {
        arbitrary()
    }
}

} // verus!
