//! Transport-agnostic response values and the two helpers every handler
//! shares: a redirect and a generic internal-error response.

use vstd::prelude::*;
use vstd::string::StringExecFns;

verus! {

/// What a handler decides, free of any HTTP framework: a status code, an
/// optional redirect target, and an optional one-time ("flash") message to
/// display after the redirect.
pub struct Response {
    pub status: u16,
    pub location: Option<String>,
    pub flash: Option<String>,
}

/// A redirect (303-equivalent) to `location`, with no flash message.
pub fn see_other(location: &str) -> (r: Response)
    ensures
        r.status == 303,
        r.location matches Some(l) && l@ == location@,
        r.flash is None,
{
    Response { status: 303, location: Some(String::from_str(location)), flash: None }
}

/// A redirect (303-equivalent) to `location` carrying a one-time message.
pub fn see_other_with_flash(location: &str, flash: String) -> (r: Response)
    ensures
        r.status == 303,
        r.location matches Some(l) && l@ == location@,
        r.flash matches Some(f) && f@ == flash@,
{
    Response { status: 303, location: Some(String::from_str(location)), flash: Some(flash) }
}

/// The generic internal-failure response (500-equivalent). The cause is for
/// the caller's log, never for the client.
pub fn error500() -> (r: Response)
    ensures
        r.status == 500,
        r.location is None,
        r.flash is None,
{
    Response { status: 500, location: None, flash: None }
}

} // verus!
