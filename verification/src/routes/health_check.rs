//! The liveness probe: always a plain success.

use crate::utils::Response;
use vstd::prelude::*;

verus! {

/// Answers 200 with nothing else, whatever the state of the system.
pub fn health_check() -> (r: Response)
    ensures
        r.status == 200,
        r.location is None,
        r.flash is None,
{
    Response { status: 200, location: None, flash: None }
}

} // verus!
