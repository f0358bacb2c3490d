use crate::errors::{classify_status, spec_status_ok, PipelineError};
use crate::listing::{contains_str, lemma_push_to_set, spec_views};
use vstd::prelude::*;

verus! {

/// How one asset download ended when it did not fail.
#[derive(PartialEq, Eq, Structural, Clone, Copy, Debug)]
pub enum AssetOutcome {
    /// The destination already existed: nothing was fetched or written.
    Skipped,
    /// The bytes were fetched and written to the destination.
    Downloaded,
}

/// One download step over a model of the download root — the set of
/// destination paths already present. Yields the paths present
/// afterwards, the step's result, and whether a network fetch was
/// issued: an existing destination is skipped without any fetch, a
/// successful fetch adds the destination, a failed fetch changes
/// nothing (429 is the recoverable rate-limit signal, any other
/// non-success status is a terminal upstream failure).
pub open spec fn spec_download_step(present: Set<Seq<char>>, dest: Seq<char>, status: u16) -> (
    Set<Seq<char>>,
    Result<AssetOutcome, PipelineError>,
    bool,
) {
    if present.contains(dest) {
        (present, Ok(AssetOutcome::Skipped), false)
    } else if spec_status_ok(status) {
        (present.insert(dest), Ok(AssetOutcome::Downloaded), true)
    } else if status == 429 {
        (present, Err(PipelineError::RateLimited), true)
    } else {
        (present, Err(PipelineError::Upstream(status)), true)
    }
}

/// The verified core of the asset downloader, run against an in-memory
/// store of the destination paths already present; the HTTP status the
/// fetch would answer is supplied by the caller. Follows
/// `spec_download_step` exactly, recording a download by appending its
/// destination to the store.
pub fn download_step_model(store: &mut Vec<String>, dest: &String, status: u16) -> (r: Result<
    AssetOutcome,
    PipelineError,
>)
    ensures
        ({
            let step = spec_download_step(spec_views(old(store)@).to_set(), dest@, status);
            let downloaded = r == Ok::<AssetOutcome, PipelineError>(AssetOutcome::Downloaded);
            let before = old(store)@;
            let after = final(store)@;
            r == step.1 && spec_views(after).to_set() == step.0
                && (!downloaded ==> after == before)
                && (downloaded ==> after == before.push(*dest))
        }),
{
    if contains_str(store, dest) {
        return Ok(AssetOutcome::Skipped);
    }
    match classify_status(status) {
        Ok(()) => {
            let ghost prev = store@;
            store.push(dest.clone());
            proof {
                assert(spec_views(store@) =~= spec_views(prev).push(dest@));
                lemma_push_to_set(spec_views(prev), dest@);
                assert(store@ == prev.push(*dest));
            }
            Ok(AssetOutcome::Downloaded)
        },
        Err(e) => Err(e),
    }
}

/// Idempotence of the downloader: once a step on `dest` has not failed
/// (it downloaded, or the destination was already there), running the
/// same destination again skips — it issues no fetch, reports Skipped
/// and leaves the store exactly as it was — whatever status a fetch
/// would have answered the second time.
pub proof fn lemma_download_idempotent(
    present: Set<Seq<char>>,
    dest: Seq<char>,
    status1: u16,
    status2: u16,
)
    requires
        spec_download_step(present, dest, status1).1 is Ok,
    ensures
        ({
            let first = spec_download_step(present, dest, status1);
            let second = spec_download_step(first.0, dest, status2);
            second.0 == first.0 && second.1 == Ok::<AssetOutcome, PipelineError>(AssetOutcome::Skipped) && second.2 == false
        }),
{
}

} // verus!
