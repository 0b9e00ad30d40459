//! Sentinel encoding of optional timestamps.
//!
//! Timestamp fields on a buffer are plain 64-bit integers in which one
//! reserved value stands for "no timestamp present". This module keeps the
//! translation between that wire encoding and a typed `Option<i64>` in one
//! place, so the sentinel never leaks into ordinary arithmetic.

use vstd::prelude::*;

verus! {

/// The reserved "no timestamp" sentinel. A field holding this value is
/// read as absent; every other value is a concrete timestamp.
pub const NO_TIMESTAMP: i64 = i64::MIN;

/// The integer a buffer field holds for a given optional timestamp.
pub open spec fn encoded_timestamp(v: Option<i64>) -> i64 {
    match v {
        Option::None => NO_TIMESTAMP,
        Option::Some(t) => t,
    }
}

/// The optional timestamp read back from a buffer field.
pub open spec fn decoded_timestamp(raw: i64) -> Option<i64> {
    if raw == NO_TIMESTAMP {
        Option::None
    } else {
        Option::Some(raw)
    }
}

/// Translate a raw field value into a typed optional timestamp.
pub fn decode_timestamp(raw: i64) -> (r: Option<i64>)
    ensures
        r == decoded_timestamp(raw),
{
    if raw == NO_TIMESTAMP {
        None
    } else {
        Some(raw)
    }
}

/// Translate a typed optional timestamp into the raw field value.
pub fn encode_timestamp(v: Option<i64>) -> (r: i64)
    ensures
        r == encoded_timestamp(v),
{
    match v {
        None => NO_TIMESTAMP,
        Some(t) => t,
    }
}

/// Law: writing any representable timestamp (or absence) and reading it
/// back yields the value that was written. The sentinel itself is not a
/// representable timestamp: it is reserved for absence.
pub proof fn lemma_timestamp_round_trip(v: Option<i64>)
    requires
        v matches Some(t) ==> t != NO_TIMESTAMP,
    ensures
        decoded_timestamp(encoded_timestamp(v)) == v,
{
}

/// Law: decoding never surfaces the sentinel as a concrete value; it
/// always becomes absence.
pub proof fn lemma_sentinel_never_decoded(raw: i64)
    ensures
        decoded_timestamp(raw) != Some(NO_TIMESTAMP),
{
}

} // verus!
