use vstd::prelude::*;

use std::time::Duration;

use crate::error::{RclReturnCode, RclrsError};

verus! {

/// The total number of whole nanoseconds in a `Duration`, as `Duration::as_nanos` reports it.
pub uninterp spec fn duration_nanos(d: Duration) -> u128;

/// Calls `Duration::as_nanos`; its result is named `duration_nanos`.
#[verifier::external_body]
pub(crate) fn duration_as_nanos(d: &Duration) -> (n: u128)
    ensures
        n == duration_nanos(*d),
{
    d.as_nanos()
}

/// Calls `Duration::from_millis`: the duration holds exactly `millis` milliseconds, so
/// `as_nanos` gives `millis` times one million.
#[verifier::external_body]
pub(crate) fn duration_from_millis(millis: u64) -> (d: Duration)
    ensures
        duration_nanos(d) == millis * 1_000_000,
{
    Duration::from_millis(millis)
}

/// The nanoseconds of an optional timeout.
pub open spec fn timeout_nanos(timeout: Option<Duration>) -> Option<u128> {
    match timeout {
        None => None,
        Some(d) => Some(duration_nanos(d)),
    }
}

/// The timeout handed to the middleware: `-1` waits forever, any other value is a number of
/// nanoseconds that must fit in an `i64`.
pub open spec fn spec_rcl_timeout(nanos: Option<u128>) -> Result<i64, RclrsError> {
    match nanos {
        None => Ok(-1i64),
        Some(ns) => if ns <= i64::MAX {
            Ok(ns as i64)
        } else {
            Err(RclrsError::bare(RclReturnCode::InvalidArgument))
        },
    }
}

/// The middleware's timeout is the nanosecond count itself, unchanged, whenever the count fits
/// in an `i64`; no timeout waits forever (`-1`); a count too large is rejected. So a negative
/// timeout is handed on only for "no timeout", and every accepted count comes back exactly.
pub proof fn lemma_timeout_nanoseconds_pass_unchanged(nanos: Option<u128>)
    ensures
        nanos is None ==> spec_rcl_timeout(nanos) == Ok::<i64, RclrsError>(-1i64),
        nanos is Some && nanos->Some_0 <= i64::MAX ==> (spec_rcl_timeout(nanos) matches Ok(x) && x
            >= 0 && x as u128 == nanos->Some_0),
        nanos is Some && nanos->Some_0 > i64::MAX ==> spec_rcl_timeout(nanos) == Err::<
            i64,
            RclrsError,
        >(RclrsError::bare(RclReturnCode::InvalidArgument)),
        spec_rcl_timeout(nanos) matches Ok(x) ==> (x == -1 && nanos is None) || (x >= 0 && nanos
            == Some(x as u128)),
{
}

/// Converts a timeout given in nanoseconds into the middleware's representation.
///
/// `None` blocks indefinitely and becomes `-1`; a count of nanoseconds that fits in an `i64`
/// is passed on unchanged; a larger one is rejected with `InvalidArgument`.
pub fn rcl_timeout(nanos: Option<u128>) -> (r: Result<i64, RclrsError>)
    ensures
        r == spec_rcl_timeout(nanos),
        nanos is None ==> r == Ok::<i64, RclrsError>(-1i64),
        nanos is Some && nanos->Some_0 <= i64::MAX ==> (r matches Ok(x) && x >= 0 && x as u128
            == nanos->Some_0),
        nanos is Some && nanos->Some_0 > i64::MAX ==> r == Err::<i64, RclrsError>(
            RclrsError::bare(RclReturnCode::InvalidArgument),
        ),
{
    match nanos {
        None => Ok(-1),
        Some(ns) => {
            if ns <= i64::MAX as u128 {
                Ok(ns as i64)
            } else {
                Err(RclrsError::from_code(RclReturnCode::InvalidArgument))
            }
        },
    }
}

/// Converts an optional `Duration` into the middleware's timeout representation.
pub fn timeout_to_rcl(timeout: Option<Duration>) -> (r: Result<i64, RclrsError>)
    ensures
        r == spec_rcl_timeout(timeout_nanos(timeout)),
{
    let nanos = match timeout {
        None => None,
        Some(d) => Some(duration_as_nanos(&d)),
    };
    rcl_timeout(nanos)
}

} // verus!
