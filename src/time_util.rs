use vstd::prelude::*;

verus! {

/// A UTC instant, as nanoseconds since the Unix epoch.
#[derive(Clone, Copy, Debug, PartialEq, Eq, Structural)]
pub struct Timestamp {
    pub unix_nanos: i128,
}

/// Relies on time::OffsetDateTime::now_utc for the current instant of the
/// system clock; nothing is known of the value read.
#[verifier::external_body]
pub(crate) fn now() -> (r: Timestamp) {
    Timestamp { unix_nanos: time::OffsetDateTime::now_utc().unix_timestamp_nanos() }
}

} // verus!
