//! Logout: destroy the session entirely and send the client to the login
//! page. Logging out twice is harmless.

use crate::session_state::SessionStore;
use crate::utils::Response;
use crate::utils::see_other_with_flash;
use vstd::prelude::*;
use vstd::string::StringExecFns;

verus! {

/// Destroys the presented session — idempotently: an absent session leaves
/// the store exactly as it was — and redirects to the login page with a
/// one-time farewell.
pub fn log_out(sessions: &mut SessionStore, session_id: u128) -> (r: Response)
    requires
        old(sessions).wf(),
    ensures
        final(sessions).wf(),
        final(sessions).ttl() == old(sessions).ttl(),
        !final(sessions).has_session(session_id),
        old(sessions).has_session(session_id) ==> exists|i: int|
            0 <= i < old(sessions).rows().len() && (#[trigger] old(sessions).rows()[i]).session_id
                == session_id && final(sessions).rows() == old(sessions).rows().remove(i),
        !old(sessions).has_session(session_id) ==> *final(sessions) == *old(sessions),
        r.status == 303,
        r.location matches Some(l) && l@ == "/login"@,
        r.flash matches Some(m) && m@ == "You have successfully logged out."@,
{
    sessions.destroy(session_id);
    see_other_with_flash("/login", String::from_str("You have successfully logged out."))
}

} // verus!
