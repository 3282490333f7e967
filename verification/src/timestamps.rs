//! Points in time, in seconds since the epoch, as the platform accepts them.

use crate::error::Error;
use vstd::prelude::*;

verus! {

#[verifier::external_type_specification]
#[verifier::external_body]
pub struct ExInvalidTimestamp(serenity::model::timestamp::InvalidTimestamp);

/// The most seconds, before or after the epoch, that can be counted in milliseconds.
pub const MAX_SECONDS: i64 = 9_223_372_036_854_775;

/// Whether `Timestamp::from_unix_timestamp` of the platform library accepts this number of
/// seconds since the epoch.
pub uninterp spec fn timestamp_accepted(secs: i64) -> bool;

/// Calls `serenity::model::Timestamp::from_unix_timestamp` and reads the seconds back with
/// `unix_timestamp`. The platform library counts in milliseconds, so the seconds must be
/// few enough to be multiplied by a thousand. Whether it accepts them depends on the number
/// alone; where it does, the timestamp holds the same number of seconds.
#[verifier::external_body]
fn timestamp_from_unix(secs: i64) -> (r: Result<i64, serenity::model::timestamp::InvalidTimestamp>)
    requires
        -MAX_SECONDS <= secs <= MAX_SECONDS,
    ensures
        match r {
            Ok(held) => timestamp_accepted(secs) && held == secs,
            Err(_) => !timestamp_accepted(secs),
        },
{
    match serenity::model::Timestamp::from_unix_timestamp(secs) {
        Ok(timestamp) => Ok(timestamp.unix_timestamp()),
        Err(e) => Err(e),
    }
}

/// The second at which a sanction of `length_secs` seconds, given at `administered_at`,
/// ends, where that second can still be counted in milliseconds.
pub open spec fn end_of(administered_at: i64, length_secs: u64) -> Option<i64> {
    if -MAX_SECONDS <= administered_at + length_secs <= MAX_SECONDS {
        Some((administered_at + length_secs) as i64)
    } else {
        None
    }
}

/// Adds a length to a point in time, if the sum can still be counted in milliseconds.
pub fn expiry_seconds(administered_at: i64, length_secs: u64) -> (end: Option<i64>)
    ensures
        end == end_of(administered_at, length_secs),
{
    let end: i128 = administered_at as i128 + length_secs as i128;
    if end < -(MAX_SECONDS as i128) || end > MAX_SECONDS as i128 {
        None
    } else {
        Some(end as i64)
    }
}

/// Tells whether the platform can represent a point in time.
pub fn is_valid_timestamp(secs: i64) -> (valid: bool)
    ensures
        valid == (-MAX_SECONDS <= secs <= MAX_SECONDS && timestamp_accepted(secs)),
{
    if secs < -MAX_SECONDS || secs > MAX_SECONDS {
        return false;
    }
    match timestamp_from_unix(secs) {
        Ok(_) => true,
        Err(_) => false,
    }
}

/// The expiry date of a sanction of `length_secs` seconds given at `administered_at`.
///
/// Where the platform cannot represent that point in time, the result is
/// `InvalidTimestamp`.
pub fn expiry_date(administered_at: i64, length_secs: u64) -> (r: Result<i64, Error>)
    ensures
        match r {
            Ok(end) => end_of(administered_at, length_secs) == Some(end) && timestamp_accepted(
                end,
            ),
            Err(e) => e == Error::InvalidTimestamp && (end_of(administered_at, length_secs)
                matches Some(end) ==> !timestamp_accepted(end)),
        },
{
    match expiry_seconds(administered_at, length_secs) {
        Some(end) => match timestamp_from_unix(end) {
            Ok(held) => Ok(held),
            Err(_) => Err(Error::InvalidTimestamp),
        },
        None => Err(Error::InvalidTimestamp),
    }
}

} // verus!
