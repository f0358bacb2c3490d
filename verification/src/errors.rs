use vstd::prelude::*;

verus! {

/// Why one item's pipeline ended without success. `Upstream` carries the
/// offending HTTP status code; `MaxRetries` means the rate-limit retry
/// ceiling was exhausted.
#[derive(PartialEq, Eq, Structural, Clone, Copy, Debug)]
pub enum FailReason {
    MaxRetries,
    Upstream(u16),
    Parse,
    Io,
    Network,
}

/// Terminal result of one item's pipeline run.
#[derive(PartialEq, Eq, Structural, Clone, Copy, Debug)]
pub enum ItemOutcome {
    Success,
    Failure(FailReason),
}

/// Error raised by a single step of an item's pipeline. `RateLimited`
/// (HTTP 429) is recoverable by the retry controller; the rest are
/// terminal for the owning item.
#[derive(PartialEq, Eq, Structural, Clone, Copy, Debug)]
pub enum PipelineError {
    Upstream(u16),
    RateLimited,
    Parse,
    Io,
}

/// True exactly for the HTTP status codes that count as success.
pub open spec fn spec_status_ok(status: u16) -> bool {
    200 <= status < 300
}

/// Classifies an HTTP status: success, the recoverable rate-limit signal,
/// or a terminal upstream failure carrying the status code.
pub fn classify_status(status: u16) -> (r: Result<(), PipelineError>)
    ensures
        r is Ok <==> spec_status_ok(status),
        status == 429 ==> r == Result::<(), PipelineError>::Err(PipelineError::RateLimited),
        !spec_status_ok(status) && status != 429 ==> r == Result::<(), PipelineError>::Err(
            PipelineError::Upstream(status),
        ),
{
    if 200 <= status && status < 300 {
        Ok(())
    } else if status == 429 {
        Err(PipelineError::RateLimited)
    } else {
        Err(PipelineError::Upstream(status))
    }
}

} // verus!
