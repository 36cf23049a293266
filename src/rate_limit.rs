use vstd::prelude::*;

verus! {

// The admission gate itself (a token-bucket limiter of the `governor`
// crate) lives with the request loop; what it is configured with is
// decided here.

/// Requests per second of the permissive preset.
pub const PERMISSIVE_RATE: u32 = 1000;

/// Requests per second of the moderate preset, which is also the default.
pub const MODERATE_RATE: u32 = 100;

/// Requests per second of the strict preset.
pub const STRICT_RATE: u32 = 10;

/// The rate used when a rate of zero is asked for.
pub const FALLBACK_RATE: u32 = 10;

/// The number of requests per second that a limiter asked for
/// `requests_per_second` admits: the rate itself, or the fallback rate when
/// zero is asked for, since a limiter must admit some requests.
pub fn effective_rate(requests_per_second: u32) -> (r: u32)
    ensures
        r > 0,
        requests_per_second > 0 ==> r == requests_per_second,
        requests_per_second == 0 ==> r == FALLBACK_RATE,
{
    if requests_per_second == 0 {
        FALLBACK_RATE
    } else {
        requests_per_second
    }
}

} // verus!
