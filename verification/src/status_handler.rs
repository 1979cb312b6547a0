//! The liveness endpoint's payload.

use vstd::prelude::*;

verus! {

/// The body of the status endpoint.
#[derive(Clone, Copy, Debug, PartialEq, Eq)]
pub struct ServerStatus {
    pub status: &'static str,
}

/// Reports the service as alive.
pub fn status_handler() -> (r: ServerStatus)
    ensures
        r.status@ == "OK"@,
{
    ServerStatus { status: "OK" }
}

} // verus!
