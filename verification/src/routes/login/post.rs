//! Login: validate credentials, renew the session — new identifier first,
//! authenticated user written only after — and redirect; any failure goes
//! back to the login form with a one-time message.

use crate::authentication::AuthError;
use crate::authentication::Credentials;
use crate::authentication::UserStore;
use crate::authentication::password::phc_hash_valid;
use crate::authentication::password::phc_verifies;
use crate::authentication::validate_credentials;
use crate::session_state::SessionStore;
use crate::utils::Response;
use crate::utils::see_other;
use crate::utils::see_other_with_flash;
use vstd::prelude::*;
use vstd::string::StringExecFns;

verus! {

/// The raw, untrusted login form.
pub struct FormData {
    pub username: String,
    pub password: String,
}

/// Why a login failed: the credentials (safe to display), or an internal
/// failure shown only as a generic message.
pub enum LoginError {
    AuthError(String),
    UnexpectedError(String),
}

/// The user-facing message of each failure.
pub open spec fn spec_login_message(e: LoginError) -> Seq<char> {
    if e is AuthError {
        "Authentication failed"@
    } else {
        "Something went wrong"@
    }
}

impl LoginError {
    /// The user-facing message of this failure.
    pub fn message(&self) -> (r: String)
        ensures
            r@ == spec_login_message(*self),
    {
        match self {
            LoginError::AuthError(_) => String::from_str("Authentication failed"),
            LoginError::UnexpectedError(_) => String::from_str("Something went wrong"),
        }
    }
}

/// What a successful login hands the transport: the renewed session
/// identifier (the credential the client keeps) and the redirect to the
/// dashboard.
pub struct LoginSuccess {
    pub session_id: u128,
    pub user_id: u128,
    pub response: Response,
}

/// A failed login: the error, and the redirect back to the form carrying the
/// error's one-time message.
pub struct LoginFailure {
    pub error: LoginError,
    pub response: Response,
}

/// The redirect every login failure answers with: back to the form, the
/// error's message attached for one display.
pub fn login_redirect(error: LoginError) -> (r: LoginFailure)
    ensures
        r.error == error,
        r.response.status == 303,
        r.response.location matches Some(l) && l@ == "/login"@,
        r.response.flash matches Some(m) && m@ == spec_login_message(error),
{
    let message = error.message();
    let response = see_other_with_flash("/login", message);
    LoginFailure { error, response }
}

/// Attempts a login over the presented (pre-login) session.
///
/// On success the session is renewed first — fresh identifier, the old one
/// invalid from here on — and only then is the user written into it, so an
/// attacker-fixed pre-login identifier never becomes privileged; the answer
/// is a redirect to the dashboard. A wrong password and an unknown username
/// fail with the same variant and the same message. On any failure the
/// session store is exactly as it was.
pub fn login(
    form: FormData,
    users: &UserStore,
    sessions: &mut SessionStore,
    session_id: u128,
    now: i64,
) -> (r: Result<LoginSuccess, LoginFailure>)
    requires
        users.wf(),
        old(sessions).wf(),
        now <= i64::MAX - old(sessions).ttl(),
    ensures
        final(sessions).wf(),
        final(sessions).ttl() == old(sessions).ttl(),
        r is Err ==> *final(sessions) == *old(sessions),
        r matches Ok(s) ==> ({
            let new_row = crate::session_state::SessionRow {
                session_id: s.session_id,
                user_id: Some(s.user_id),
                expires_at: (now + old(sessions).ttl()) as i64,
            };
            &&& users.credentials_match(form.username@, form.password@, s.user_id)
            &&& s.session_id != session_id
            &&& !old(sessions).has_session(s.session_id)
            &&& !final(sessions).has_session(session_id)
            &&& final(sessions).authenticated_as(s.session_id, now, s.user_id)
            &&& (old(sessions).has_session(session_id) ==> exists|i: int|
                0 <= i < old(sessions).rows().len() && (
                #[trigger] old(sessions).rows()[i]).session_id == session_id
                    && final(sessions).rows() == old(sessions).rows().remove(i).push(new_row))
            &&& (!old(sessions).has_session(session_id) ==> final(sessions).rows() == old(
                sessions,
            ).rows().push(new_row))
            &&& s.response.status == 303
            &&& (s.response.location matches Some(l) && l@ == "/admin/dashboard"@)
        }),
        r matches Err(f) ==> ({
            &&& f.response.status == 303
            &&& (f.response.location matches Some(l) && l@ == "/login"@)
            &&& (f.response.flash matches Some(m) && m@ == spec_login_message(f.error))
        }),
        users.spec_user(form.username@) is None ==> (r matches Err(f) && f.error is AuthError
            && spec_login_message(f.error) == "Authentication failed"@),
        users.spec_user(form.username@) matches Some(row) ==> ({
            if !phc_hash_valid(row.password_hash@) {
                r matches Err(f) && f.error is UnexpectedError
            } else if !phc_verifies(form.password@, row.password_hash@) {
                r matches Err(f) && f.error is AuthError && spec_login_message(f.error)
                    == "Authentication failed"@
            } else {
                (r matches Ok(s) && s.user_id == row.user_id) || (r matches Err(f) && f.error
                    is UnexpectedError)
            }
        }),
{
    let credentials = Credentials { username: form.username, password: form.password };
    let user_id = match validate_credentials(&credentials, users) {
        Ok(user_id) => user_id,
        Err(AuthError::InvalidCredentials(cause)) => {
            return Err(login_redirect(LoginError::AuthError(cause)));
        },
        Err(AuthError::UnexpectedError(cause)) => {
            return Err(login_redirect(LoginError::UnexpectedError(cause)));
        },
    };
    let new_session_id = match sessions.renew(session_id, now) {
        Ok(new_session_id) => new_session_id,
        Err(()) => {
            return Err(
                login_redirect(
                    LoginError::UnexpectedError(
                        String::from_str("the session store refused the renewal"),
                    ),
                ),
            );
        },
    };
    let ghost mid = *sessions;
    let inserted = sessions.insert_user_id(new_session_id, user_id);
    match inserted {
        Ok(()) => {
            proof {
                let i = choose|i: int|
                    0 <= i < mid.rows().len() && (#[trigger] mid.rows()[i]).session_id
                        == new_session_id && sessions.rows() == mid.rows().update(
                        i,
                        (crate::session_state::SessionRow {
                            user_id: Some(user_id),
                            ..mid.rows()[i]
                        }),
                    );
                let n = mid.rows().len() - 1;
                assert(mid.rows()[n].session_id == new_session_id);
                assert(i == n);
                assert(sessions.rows()[n].session_id == new_session_id);
                assert(now < sessions.rows()[n].expires_at);
                assert(sessions.rows()[n].user_id == Some(user_id));
                assert(sessions.authenticated_as(new_session_id, now, user_id));
                assert forall|k: int|
                    0 <= k < sessions.rows().len() implies (
                #[trigger] sessions.rows()[k]).session_id != session_id by {
                    assert(sessions.rows()[k].session_id == mid.rows()[k].session_id);
                    assert(!mid.has_session(session_id));
                }
                let new_row = crate::session_state::SessionRow {
                    session_id: new_session_id,
                    user_id: Some(user_id),
                    expires_at: (now + old(sessions).ttl()) as i64,
                };
                let empty_row = crate::session_state::SessionRow {
                    session_id: new_session_id,
                    user_id: None,
                    expires_at: (now + old(sessions).ttl()) as i64,
                };
                if old(sessions).has_session(session_id) {
                    let j = choose|j: int|
                        0 <= j < old(sessions).rows().len() && (
                        #[trigger] old(sessions).rows()[j]).session_id == session_id && mid.rows()
                            == old(sessions).rows().remove(j).push(empty_row);
                    assert(sessions.rows() =~= old(sessions).rows().remove(j).push(new_row));
                } else {
                    assert(mid.rows() == old(sessions).rows().push(empty_row));
                    assert(sessions.rows() =~= old(sessions).rows().push(new_row));
                }
            }
            Ok(
                LoginSuccess {
                    session_id: new_session_id,
                    user_id,
                    response: see_other("/admin/dashboard"),
                },
            )
        },
        Err(()) => {
            proof {
                assert(mid.has_session(new_session_id));
                assert(false);
            }
            Err(
                login_redirect(
                    LoginError::UnexpectedError(
                        String::from_str("the session store lost the renewed session"),
                    ),
                ),
            )
        },
    }
}

} // verus!
