use vstd::prelude::*;
use crate::errors::Error;

verus! {

/// Nanoseconds in one second.
pub const NANOS_PER_SECOND: u64 = 1000000000;

/// The span of a duration, given in seconds, as nanoseconds.
pub open spec fn duration_nanos(duration_secs: u64) -> int {
    duration_secs * NANOS_PER_SECOND
}

/// Subtracts the duration from the clock reading, both as nanoseconds since
/// the epoch, to produce the cutoff instant. Fails with
/// `TimeSubtractionError` when the subtraction would land before the
/// representable minimum of the clock. When the duration is positive the
/// cutoff lies strictly before the reading; a zero duration leaves it equal.
pub fn compute_threshold(now_nanos: u128, duration_secs: u64) -> (r: Result<u128, Error>)
    ensures
        r is Ok <==> duration_nanos(duration_secs) <= now_nanos,
        r matches Ok(t) ==> t == now_nanos - duration_nanos(duration_secs),
        r matches Ok(t) ==> (duration_secs > 0 ==> t < now_nanos),
        r matches Ok(t) ==> (duration_secs == 0 ==> t == now_nanos),
        r matches Err(e) ==> e is TimeSubtractionError,
{
    let dur_nanos: u128 = (duration_secs as u128) * (NANOS_PER_SECOND as u128);
    proof {
        assert(duration_secs >= 1 ==> duration_secs * NANOS_PER_SECOND >= 1 * NANOS_PER_SECOND)
            by (nonlinear_arith);
    }
    if dur_nanos <= now_nanos {
        Ok(now_nanos - dur_nanos)
    } else {
        Err(Error::TimeSubtractionError)
    }
}

} // verus!
