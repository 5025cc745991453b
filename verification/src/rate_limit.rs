//! Guarding the construction of rate-limited access to the generation and
//! embedding collaborators: a request budget must be positive to be usable.

use vstd::prelude::*;

verus! {

/// Why a rate-limited service could not be built.
#[derive(Clone, Copy, PartialEq, Eq, Structural, Debug)]
pub enum RateLimitError {
    ZeroRequestsPerMinute,
}

/// The window, in seconds, one request budget applies to.
pub const RATE_LIMIT_WINDOW_SECS: u64 = 60;

/// Accepts a requests-per-minute budget exactly when it is positive: a
/// service limited to zero requests could never answer a call.
pub fn validate_requests_per_minute(rpm: u64) -> (r: Result<u64, RateLimitError>)
    ensures
        r is Ok <==> rpm > 0,
        r is Ok ==> r == Ok::<u64, RateLimitError>(rpm),
        r is Err ==> r == Err::<u64, RateLimitError>(RateLimitError::ZeroRequestsPerMinute),
{
    if rpm == 0 {
        Err(RateLimitError::ZeroRequestsPerMinute)
    } else {
        Ok(rpm)
    }
}

} // verus!
