//! The access gate ahead of every protected route: it turns a session into
//! an authenticated identity, or short-circuits with a redirect to the login
//! page before any protected logic can run.

use crate::session_state::SessionStore;
use crate::utils::Response;
use crate::utils::see_other;
use vstd::prelude::*;

verus! {

/// An authenticated operator identity. The field is private and the only
/// constructor is the access gate, so holding a `UserId` is itself evidence
/// that a live session carried it.
#[derive(Clone, Copy, Debug)]
pub struct UserId {
    user_id: u128,
}

impl View for UserId {
    type V = u128;

    closed spec fn view(&self) -> u128 {
        self.user_id
    }
}

impl UserId {
    /// The raw identifier.
    pub fn get(&self) -> (r: u128)
        ensures
            r == self@,
    {
        self.user_id
    }
}

/// Decides a request to the protected area: an unexpired session carrying a
/// user lets the request proceed with that identity attached; anything else
/// — no session presented, an unknown or expired identifier, a session
/// without a user — is sent to the login page and reaches no handler.
pub fn reject_anonymous_users(
    sessions: &SessionStore,
    session_id: Option<u128>,
    now: i64,
) -> (r: Result<UserId, Response>)
    requires
        sessions.wf(),
    ensures
        r matches Ok(uid) ==> (session_id matches Some(sid) && sessions.authenticated_as(
            sid,
            now,
            uid@,
        )),
        r is Ok <==> (session_id matches Some(sid) && sessions.authenticated(sid, now)),
        r matches Err(resp) ==> resp.status == 303 && (resp.location matches Some(l) && l@
            == "/login"@),
{
    match session_id {
        Some(sid) => match sessions.get_user_id(sid, now) {
            Some(user_id) => Ok(UserId { user_id }),
            None => Err(see_other("/login")),
        },
        None => Err(see_other("/login")),
    }
}

} // verus!
