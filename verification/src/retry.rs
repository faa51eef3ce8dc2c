//! The decisions of a polling loop that retries a probe until it finds a
//! value or its time runs out; the caller does the probing and the sleeping.

use vstd::prelude::*;
use crate::error::{invalid_argument, invalid_argument_error, Error, ErrorView};
use crate::text::owned;

verus! {

/// What a polling loop does after one probe.
#[derive(Clone, Copy, Debug, PartialEq, Eq, Structural)]
pub enum RetryAction {
    /// The probe found a value: hand it back.
    Finish,
    /// Nothing yet and time is left: sleep one interval and probe again.
    Sleep,
    /// Nothing yet and the timeout has passed.
    GiveUp,
}

/// Accepts the timeout and interval of a polling loop, given in nanoseconds:
/// both must be non-zero.
pub fn retry_durations(timeout_nanos: u128, interval_nanos: u128) -> (r: Result<(), Error>)
    ensures
        timeout_nanos != 0 && interval_nanos != 0 ==> r is Ok,
        timeout_nanos == 0 || interval_nanos == 0 ==> (r matches Err(e)
            && e@ == invalid_argument("retry duration", "timeout and interval must be non-zero")),
{
    if timeout_nanos == 0 || interval_nanos == 0 {
        return Err(invalid_argument_error("retry duration", "timeout and interval must be non-zero"));
    }
    Ok(())
}

/// The step after a probe: finish on a value, give up once the time elapsed
/// since the loop began reaches the timeout, and sleep otherwise.
pub fn retry_next(found: bool, elapsed_nanos: u128, timeout_nanos: u128) -> (r: RetryAction)
    ensures
        found ==> r == RetryAction::Finish,
        !found && elapsed_nanos >= timeout_nanos ==> r == RetryAction::GiveUp,
        !found && elapsed_nanos < timeout_nanos ==> r == RetryAction::Sleep,
{
    if found {
        RetryAction::Finish
    } else if elapsed_nanos >= timeout_nanos {
        RetryAction::GiveUp
    } else {
        RetryAction::Sleep
    }
}

/// The error of a polling loop that gave up.
pub fn retry_timeout_error() -> (e: Error)
    ensures
        e@ == (ErrorView::WaitTimeout { condition: "integration-test retry probe"@ }),
{
    Error::WaitTimeout { condition: owned("integration-test retry probe") }
}

} // verus!
