//! Sessions and credentials: fixation-resistant login, uniform failures,
//! the access gate, logout, and password change.

use zero2prod::authentication::AuthError;
use zero2prod::authentication::Credentials;
use zero2prod::authentication::UserId;
use zero2prod::authentication::UserStore;
use zero2prod::authentication::reject_anonymous_users;
use zero2prod::authentication::validate_credentials;
use zero2prod::routes::admin::dashboard::admin_dashboard;
use zero2prod::routes::admin::logout::log_out;
use zero2prod::routes::admin::password::PasswordChangeError;
use zero2prod::routes::admin::password::change_password;
use zero2prod::routes::login::post::FormData;
use zero2prod::routes::login::post::login;
use zero2prod::session_state::SessionStore;

const TTL_MILLIS: i64 = 3_600_000;
const NOW: i64 = 1_000_000;
const USERNAME: &str = "admin";
const PASSWORD: &str = "everything-has-to-go-somewhere";

fn stores() -> (UserStore, SessionStore, u128) {
    let mut users = UserStore::new();
    users
        .add_user(USERNAME.to_string(), PASSWORD)
        .expect("creating the account failed");
    let mut sessions = SessionStore::new(TTL_MILLIS);
    let session_id = sessions.create(NOW).expect("creating a session failed");
    (users, sessions, session_id)
}

fn login_form(username: &str, password: &str) -> FormData {
    FormData { username: username.to_string(), password: password.to_string() }
}

fn log_in(users: &UserStore, sessions: &mut SessionStore, session_id: u128) -> (u128, UserId) {
    let success = match login(login_form(USERNAME, PASSWORD), users, sessions, session_id, NOW) {
        Ok(success) => success,
        Err(_) => panic!("login with correct credentials failed"),
    };
    let user_id = reject_anonymous_users(sessions, Some(success.session_id), NOW)
        .ok()
        .expect("the renewed session must be admitted");
    (success.session_id, user_id)
}

#[test]
fn login_issues_a_renewed_session_and_invalidates_the_old_one() {
    let (users, mut sessions, pre_login_sid) = stores();

    let success = match login(login_form(USERNAME, PASSWORD), &users, &mut sessions, pre_login_sid, NOW)
    {
        Ok(success) => success,
        Err(_) => panic!("login with correct credentials failed"),
    };

    assert_ne!(success.session_id, pre_login_sid, "the session identifier must be renewed");
    assert_eq!(
        sessions.get_user_id(pre_login_sid, NOW),
        None,
        "the pre-login identifier must no longer be valid"
    );
    assert_eq!(sessions.get_user_id(success.session_id, NOW), Some(success.user_id));
    assert_eq!(success.response.status, 303);
    assert_eq!(success.response.location.as_deref(), Some("/admin/dashboard"));
}

#[test]
fn login_failures_are_indistinguishable() {
    let (users, mut sessions, sid) = stores();

    let unknown_user = login(login_form("nobody", PASSWORD), &users, &mut sessions, sid, NOW)
        .err()
        .expect("an unknown username must fail");
    let wrong_password = login(login_form(USERNAME, "not-the-password"), &users, &mut sessions, sid, NOW)
        .err()
        .expect("a wrong password must fail");

    assert_eq!(unknown_user.response.status, wrong_password.response.status);
    assert_eq!(unknown_user.response.location, wrong_password.response.location);
    assert_eq!(unknown_user.response.flash, wrong_password.response.flash);
    assert_eq!(unknown_user.response.flash.as_deref(), Some("Authentication failed"));
    assert_eq!(unknown_user.error.message(), wrong_password.error.message());
    assert_eq!(
        sessions.get_user_id(sid, NOW),
        None,
        "a failed login must not authenticate the session"
    );
}

#[test]
fn validate_credentials_rejects_both_failure_modes_alike() {
    let (users, _sessions, _sid) = stores();

    let unknown = validate_credentials(
        &Credentials { username: "nobody".to_string(), password: PASSWORD.to_string() },
        &users,
    );
    let wrong = validate_credentials(
        &Credentials { username: USERNAME.to_string(), password: "wrong-password!".to_string() },
        &users,
    );

    let unknown_message = match unknown {
        Err(AuthError::InvalidCredentials(m)) => m,
        _ => panic!("an unknown username must be invalid credentials"),
    };
    let wrong_message = match wrong {
        Err(AuthError::InvalidCredentials(m)) => m,
        _ => panic!("a wrong password must be invalid credentials"),
    };
    assert_eq!(unknown_message, wrong_message);

    let correct = validate_credentials(
        &Credentials { username: USERNAME.to_string(), password: PASSWORD.to_string() },
        &users,
    );
    assert!(correct.is_ok());
}

#[test]
fn protected_routes_redirect_without_a_valid_session() {
    let (users, mut sessions, pre_login_sid) = stores();

    // No session presented at all.
    let no_session = reject_anonymous_users(&sessions, None, NOW)
        .err()
        .expect("no session must be rejected");
    assert_eq!(no_session.status, 303);
    assert_eq!(no_session.location.as_deref(), Some("/login"));

    // A session that exists but carries no authenticated user.
    let anonymous = reject_anonymous_users(&sessions, Some(pre_login_sid), NOW)
        .err()
        .expect("an anonymous session must be rejected");
    assert_eq!(anonymous.location.as_deref(), Some("/login"));

    // An authenticated session passes, until it expires.
    let (sid, user_id) = log_in(&users, &mut sessions, pre_login_sid);
    let much_later = NOW + TTL_MILLIS;
    let expired = reject_anonymous_users(&sessions, Some(sid), much_later)
        .err()
        .expect("an expired session must be rejected");
    assert_eq!(expired.location.as_deref(), Some("/login"));

    // The attached identity resolves on the dashboard.
    let username = admin_dashboard(&user_id, &users).ok().expect("the dashboard must render");
    assert_eq!(username, USERNAME);
}

#[test]
fn logged_out_sessions_stay_logged_out() {
    let (users, mut sessions, pre_login_sid) = stores();
    let (sid, _user_id) = log_in(&users, &mut sessions, pre_login_sid);

    let response = log_out(&mut sessions, sid);
    assert_eq!(response.status, 303);
    assert_eq!(response.location.as_deref(), Some("/login"));
    assert_eq!(response.flash.as_deref(), Some("You have successfully logged out."));

    let rejected = reject_anonymous_users(&sessions, Some(sid), NOW)
        .err()
        .expect("a destroyed session must be rejected");
    assert_eq!(rejected.location.as_deref(), Some("/login"));

    // Logging out again is harmless.
    let again = log_out(&mut sessions, sid);
    assert_eq!(again.status, 303);
}

#[test]
fn password_change_requires_matching_confirmations() {
    let (mut users, mut sessions, pre_login_sid) = stores();
    let (_sid, user_id) = log_in(&users, &mut sessions, pre_login_sid);

    let outcome = change_password(
        &user_id,
        PASSWORD,
        "brand-new-password-here",
        "a-different-confirmation",
        &mut users,
    );

    assert!(matches!(outcome, Err(PasswordChangeError::MismatchedNewPasswords)));
    let still_valid = validate_credentials(
        &Credentials { username: USERNAME.to_string(), password: PASSWORD.to_string() },
        &users,
    );
    assert!(still_valid.is_ok(), "the stored hash must be unchanged");
}

#[test]
fn password_change_enforces_the_length_policy() {
    let (mut users, mut sessions, pre_login_sid) = stores();
    let (_sid, user_id) = log_in(&users, &mut sessions, pre_login_sid);

    let too_short = change_password(&user_id, PASSWORD, "eleven-chrs", "eleven-chrs", &mut users);
    assert!(matches!(too_short, Err(PasswordChangeError::InvalidNewPasswordLength)));

    let long = "x".repeat(129);
    let too_long = change_password(&user_id, PASSWORD, &long, &long, &mut users);
    assert!(matches!(too_long, Err(PasswordChangeError::InvalidNewPasswordLength)));
}

#[test]
fn password_change_reverifies_the_current_password() {
    let (mut users, mut sessions, pre_login_sid) = stores();
    let (_sid, user_id) = log_in(&users, &mut sessions, pre_login_sid);

    let outcome = change_password(
        &user_id,
        "not-the-current-password",
        "brand-new-password-here",
        "brand-new-password-here",
        &mut users,
    );

    assert!(matches!(outcome, Err(PasswordChangeError::InvalidCurrentPassword)));
    assert_eq!(
        outcome.err().map(|e| e.message()),
        Some("The current password is incorrect.".to_string())
    );
}

#[test]
fn password_change_rehashes_and_the_old_password_stops_working() {
    let (mut users, mut sessions, pre_login_sid) = stores();
    let (_sid, user_id) = log_in(&users, &mut sessions, pre_login_sid);

    change_password(
        &user_id,
        PASSWORD,
        "brand-new-password-here",
        "brand-new-password-here",
        &mut users,
    )
    .expect("a well-formed password change must succeed");

    let with_new = validate_credentials(
        &Credentials {
            username: USERNAME.to_string(),
            password: "brand-new-password-here".to_string(),
        },
        &users,
    );
    assert!(with_new.is_ok());
    let with_old = validate_credentials(
        &Credentials { username: USERNAME.to_string(), password: PASSWORD.to_string() },
        &users,
    );
    assert!(matches!(with_old, Err(AuthError::InvalidCredentials(_))));
}
