//! The health endpoint's response body.

use vstd::prelude::*;

verus! {

/// What the health endpoint reports.
#[derive(Debug)]
pub struct HealthResponse {
    pub status: String,
    pub version: String,
    pub uptime: u64,
}

impl HealthResponse {
    /// A healthy report at the given uptime, in seconds.
    pub fn new(uptime: u64) -> (r: HealthResponse)
        ensures
            r.status@ == "healthy"@,
            r.version@ == "0.1.0"@,
            r.uptime == uptime,
    {
        HealthResponse { status: "healthy".to_owned(), version: "0.1.0".to_owned(), uptime }
    }
}

} // verus!
