//! A verified core for a concurrent fetch-and-download pipeline: it
//! resolves an account's item identifiers out of a listing response,
//! derives each item's asset URLs and deterministic destination paths,
//! decides retry and backoff on rate limiting, bounds how many item
//! pipelines run at once, and keeps downloads idempotent by skipping
//! destinations that already exist. All I/O — HTTP, the filesystem,
//! timers — lives outside this crate; the functions here take the
//! observations in and hand the decisions back.

pub mod download;
pub mod errors;
pub mod item;
pub mod json;
pub mod listing;
pub mod retry;
pub mod sched;
pub mod text;
pub mod transport;

use vstd::prelude::*;
use vstd::string::*;

verus! {

/// Read-only configuration shared by every component of the pipeline:
/// the authentication credential and the account whose items are fetched.
pub struct Config {
    pub credential: String,
    pub account: String,
}

impl Config {
    /// A configuration is usable only with a non-empty credential.
    pub open spec fn wf(self) -> bool {
        self.credential@.len() > 0
    }

    /// Builds the shared configuration; rejects an empty credential.
    pub fn new(credential: String, account: String) -> (r: Option<Config>)
        ensures
            match r {
                Some(c) => c.wf() && c.credential@ == credential@ && c.account@ == account@,
                None => credential@.len() == 0,
            },
    {
        if credential.as_str().unicode_len() == 0 {
            None
        } else {
            Some(Config { credential, account })
        }
    }
}

} // verus!

