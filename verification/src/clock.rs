//! Time stamps and identifiers. The clock is read through `chrono` and
//! fresh identifiers come from `uuid`; the library holds both as plain
//! numbers.

use vstd::prelude::*;

verus! {

/// A point in UTC time: whole seconds since the Unix epoch and the
/// nanoseconds past that second, as `chrono::DateTime<Utc>` reports them.
#[derive(Clone, Copy, Debug, PartialEq, Eq, Structural)]
pub struct Timestamp {
    pub secs: i64,
    pub nanos: u32,
}

/// `chrono::Utc::now`, taken apart into seconds and nanoseconds. The
/// value depends on the system clock; all that is claimed is chrono's
/// range of the nanoseconds (a leap second may carry them past one
/// billion, never past two).
#[verifier::external_body]
pub fn utc_now() -> (t: Timestamp)
    ensures
        t.nanos < 2_000_000_000,
{
    let now = chrono::Utc::now();
    Timestamp { secs: now.timestamp(), nanos: now.timestamp_subsec_nanos() }
}

/// The version field (the high nibble of octet 6) of a UUID held as a
/// big-endian `u128`.
pub open spec fn uuid_version(id: u128) -> u128 {
    (id >> 76u128) & 0xFu128
}

/// The two variant bits (the top of octet 8) of a UUID held as a
/// big-endian `u128`.
pub open spec fn uuid_variant_bits(id: u128) -> u128 {
    (id >> 62u128) & 0x3u128
}

/// `uuid::Uuid::new_v4` as a big-endian `u128` (`Uuid::as_u128`). The
/// bits are random, but the crate always sets version 4 and the RFC 4122
/// variant (`10`), which is what the contract states.
#[verifier::external_body]
pub fn new_uuid_v4() -> (id: u128)
    ensures
        uuid_version(id) == 4,
        uuid_variant_bits(id) == 2,
{
    uuid::Uuid::new_v4().as_u128()
}

} // verus!
