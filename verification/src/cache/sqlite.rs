//! Timestamps and rows as the database holds them: signed integers.

use vstd::prelude::*;

use crate::cache::store::{CacheEntry, UnixSecs};

verus! {

/// A timestamp as the database holds it; one beyond its range is held as the
/// greatest.
pub open spec fn sql_time(v: UnixSecs) -> i64 {
    if v <= i64::MAX {
        v as i64
    } else {
        i64::MAX
    }
}

/// A timestamp read back; a negative one reads as zero.
pub open spec fn unix_time(v: i64) -> UnixSecs {
    if v >= 0 {
        v as u64
    } else {
        0
    }
}

/// Turns a timestamp into what the database holds.
pub fn to_sql(v: UnixSecs) -> (r: i64)
    ensures
        r == sql_time(v),
{
    if v <= 0x7fff_ffff_ffff_ffff {
        v as i64
    } else {
        i64::MAX
    }
}

/// Turns what the database holds into a timestamp.
pub fn from_sql(v: i64) -> (r: UnixSecs)
    ensures
        r == unix_time(v),
{
    if v >= 0 {
        v as u64
    } else {
        0
    }
}

/// The entry that a row holds.
pub fn entry_from_row(bytes: Vec<u8>, fetched_at: i64, expires_at: i64) -> (r: CacheEntry)
    ensures
        r.bytes == bytes,
        r.fetched_at == unix_time(fetched_at),
        r.expires_at == unix_time(expires_at),
{
    CacheEntry { bytes, fetched_at: from_sql(fetched_at), expires_at: from_sql(expires_at) }
}

/// Every timestamp within the database's range is read back as it was written,
/// and none grows.
pub proof fn timestamps_survive(v: UnixSecs)
    ensures
        v <= i64::MAX ==> unix_time(sql_time(v)) == v,
        unix_time(sql_time(v)) <= v,
{
}

/// The order of timestamps is kept, so the database's own comparison decides
/// which rows are live exactly as the entries do, within its range.
pub proof fn timestamps_keep_their_order(a: UnixSecs, b: UnixSecs)
    ensures
        a <= b ==> sql_time(a) <= sql_time(b),
        a <= i64::MAX && b <= i64::MAX ==> (a < b <==> sql_time(a) < sql_time(b)),
{
}

/// A time is kept as it is where the database can hold it, and as the greatest it can
/// hold beyond that; what lies before the start of time is read as that start.
pub proof fn timestamps_are_kept_or_capped(v: UnixSecs, stored: i64)
    ensures
        v <= i64::MAX ==> sql_time(v) as int == v as int,
        v > i64::MAX ==> sql_time(v) == i64::MAX,
        stored >= 0 ==> unix_time(stored) as int == stored as int,
        stored < 0 ==> unix_time(stored) == 0,
{
}

} // verus!
