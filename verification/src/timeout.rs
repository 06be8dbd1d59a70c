//! The timeout guard: races the wrapped handler against a fixed deadline on
//! the monotonic clock. The runtime runs the race; the decision of what each
//! race result means is fixed here.

use vstd::prelude::*;
use crate::http::Response;
use crate::error::HandlerError;

verus! {

/// The fixed deadline, in milliseconds, shared by all requests.
pub const DEADLINE_MS: u64 = 300;

/// What the deadline race delivered: either the inner handler finished
/// first, with its result, or the deadline elapsed first. At most one of
/// the two is ever delivered per request; the loser's eventual result, if
/// any, is discarded by the runtime and never reaches this decision.
pub enum RaceResult {
    InnerFirst { result: Result<Response, HandlerError> },
    DeadlineFirst,
}

/// The timeout guard's decision on a race result: an inner result — success
/// or the handler's own error — passes through verbatim; an elapsed
/// deadline becomes the distinguished `Elapsed` error.
pub fn guard_outcome(race: RaceResult) -> (r: Result<Response, HandlerError>)
    ensures
        race matches RaceResult::InnerFirst { result } ==> r == result,
        race is DeadlineFirst ==> r == Result::<Response, HandlerError>::Err(HandlerError::Elapsed),
{
    match race {
        RaceResult::InnerFirst { result } => result,
        RaceResult::DeadlineFirst => Err(HandlerError::Elapsed),
    }
}

/// Whether a wait of `delay_ms` loses the race against a deadline of
/// `deadline_ms`. A wait exactly as long as the deadline is resolved in the
/// deadline's favour: either resolution would be correct there, and fixing
/// one keeps the outcome consistent across repeats.
pub open spec fn times_out(delay_ms: u64, deadline_ms: u64) -> bool {
    delay_ms >= deadline_ms
}

/// Decides the race for a handler that waits a known number of
/// milliseconds and does nothing else.
pub fn delay_times_out(delay_ms: u64, deadline_ms: u64) -> (r: bool)
    ensures
        r == times_out(delay_ms, deadline_ms),
{
    delay_ms >= deadline_ms
}

} // verus!
