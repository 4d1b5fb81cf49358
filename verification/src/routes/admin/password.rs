//! Password change for an already-authenticated operator: the two new
//! fields must agree, the new password must satisfy the length policy, and
//! the current password is re-verified before anything is rehashed.

use crate::authentication::AuthError;
use crate::authentication::Credentials;
use crate::authentication::UserId;
use crate::authentication::UserStore;
use crate::authentication::password::phc_hash_valid;
use crate::authentication::password::phc_verifies;
use crate::authentication::validate_credentials;
use crate::strutil::str_eq;
use vstd::prelude::*;
use vstd::string::StrSliceExecFns;
use vstd::string::StringExecFns;

verus! {

/// The length policy on a new password, in characters.
pub const MIN_NEW_PASSWORD_LENGTH: usize = 12;

/// The upper bound of the length policy.
pub const MAX_NEW_PASSWORD_LENGTH: usize = 128;

/// Why a password change was refused. All but the last are recoverable
/// validation failures, reported back to the operator.
#[derive(Debug)]
pub enum PasswordChangeError {
    MismatchedNewPasswords,
    InvalidNewPasswordLength,
    InvalidCurrentPassword,
    UnexpectedError(String),
}

/// The one-time message each refusal carries back to the form.
pub open spec fn spec_password_change_message(e: PasswordChangeError) -> Seq<char> {
    if e is MismatchedNewPasswords {
        "You entered two different new passwords - the field values must match."@
    } else if e is InvalidNewPasswordLength {
        "The new password must be between 12 and 128 characters long."@
    } else if e is InvalidCurrentPassword {
        "The current password is incorrect."@
    } else {
        "Something went wrong"@
    }
}

impl PasswordChangeError {
    /// The one-time message this refusal carries back to the form.
    pub fn message(&self) -> (r: String)
        ensures
            r@ == spec_password_change_message(*self),
    {
        match self {
            PasswordChangeError::MismatchedNewPasswords => String::from_str(
                "You entered two different new passwords - the field values must match.",
            ),
            PasswordChangeError::InvalidNewPasswordLength => String::from_str(
                "The new password must be between 12 and 128 characters long.",
            ),
            PasswordChangeError::InvalidCurrentPassword => String::from_str(
                "The current password is incorrect.",
            ),
            PasswordChangeError::UnexpectedError(_) => String::from_str("Something went wrong"),
        }
    }
}

/// Changes the password of the authenticated operator.
///
/// Refused — with the stored hash untouched — when the two new-password
/// fields differ (whatever the current password), when the new password is
/// outside the 12–128 character policy, or when the current password does
/// not verify. When all three hold of an existing account with a well-formed
/// stored hash, the change is owed: it can only succeed, or fail as
/// `UnexpectedError` because the rehash itself failed. On success only this
/// account's hash changed, and it now verifies the new password.
pub fn change_password(
    user_id: &UserId,
    current_password: &str,
    new_password: &str,
    new_password_check: &str,
    users: &mut UserStore,
) -> (r: Result<(), PasswordChangeError>)
    requires
        old(users).wf(),
    ensures
        final(users).wf(),
        r is Err ==> *final(users) == *old(users),
        (r matches Err(e) && e is MismatchedNewPasswords) <==> new_password@
            != new_password_check@,
        (r matches Err(e) && e is InvalidNewPasswordLength) <==> (new_password@
            == new_password_check@ && !(12 <= new_password@.len() <= 128)),
        ({
            &&& new_password@ == new_password_check@
            &&& 12 <= new_password@.len() <= 128
            &&& old(users).spec_user_by_id(user_id@) matches Some(row) && phc_hash_valid(
                row.password_hash@,
            ) && !phc_verifies(current_password@, row.password_hash@)
        }) ==> (r matches Err(e) && e is InvalidCurrentPassword),
        (new_password@ == new_password_check@ && 12 <= new_password@.len() <= 128 && !old(
            users,
        ).has_user_id(user_id@)) ==> (r matches Err(e) && e is UnexpectedError),
        ({
            &&& new_password@ == new_password_check@
            &&& 12 <= new_password@.len() <= 128
            &&& old(users).spec_user_by_id(user_id@) matches Some(row) && phc_hash_valid(
                row.password_hash@,
            ) && phc_verifies(current_password@, row.password_hash@)
        }) ==> (r is Ok || (r matches Err(e) && e is UnexpectedError)),
        r is Ok ==> ({
            let before = old(users).user_rows();
            let after = final(users).user_rows();
            exists|i: int|
                {
                    &&& 0 <= i < before.len()
                    &&& (#[trigger] before[i]).user_id == user_id@
                    &&& phc_verifies(current_password@, before[i].password_hash@)
                    &&& after.len() == before.len()
                    &&& (forall|j: int| 0 <= j < before.len() && j != i ==> after[j] == before[j])
                    &&& after[i].user_id == user_id@
                    &&& after[i].username == before[i].username
                    &&& phc_hash_valid(after[i].password_hash@)
                    &&& phc_verifies(new_password@, after[i].password_hash@)
                }
        }),
{
    if !str_eq(new_password, new_password_check) {
        return Err(PasswordChangeError::MismatchedNewPasswords);
    }
    let new_len = new_password.unicode_len();
    if new_len < MIN_NEW_PASSWORD_LENGTH || new_len > MAX_NEW_PASSWORD_LENGTH {
        return Err(PasswordChangeError::InvalidNewPasswordLength);
    }
    let username = match users.username_of(user_id.get()) {
        Some(username) => username,
        None => {
            return Err(
                PasswordChangeError::UnexpectedError(
                    String::from_str("no account carries the authenticated identity"),
                ),
            );
        },
    };
    proof {
        let i = choose|i: int|
            0 <= i < users.user_rows().len() && (#[trigger] users.user_rows()[i]).user_id
                == user_id@ && users.user_rows()[i].username@ == username@;
        assert(users.has_username(username@));
        let k = users.username_index(username@);
        assert(users.user_rows()[k].username@ == username@);
        assert(k == i);
        let m = users.user_id_index(user_id@);
        assert(users.user_rows()[m].user_id == user_id@);
        assert(m == i);
    }
    let credentials = Credentials { username, password: String::from_str(current_password) };
    match validate_credentials(&credentials, users) {
        Ok(_) => {},
        Err(AuthError::InvalidCredentials(_)) => {
            return Err(PasswordChangeError::InvalidCurrentPassword);
        },
        Err(AuthError::UnexpectedError(cause)) => {
            return Err(PasswordChangeError::UnexpectedError(cause));
        },
    }
    match users.update_password(user_id.get(), new_password) {
        Ok(()) => {
            proof {
                let i = choose|i: int|
                    {
                        &&& 0 <= i < old(users).user_rows().len()
                        &&& (#[trigger] old(users).user_rows()[i]).user_id == user_id@
                        &&& users.user_rows().len() == old(users).user_rows().len()
                        &&& (forall|j: int|
                            0 <= j < old(users).user_rows().len() && j != i
                                ==> users.user_rows()[j] == old(users).user_rows()[j])
                        &&& users.user_rows()[i].user_id == user_id@
                        &&& users.user_rows()[i].username == old(users).user_rows()[i].username
                        &&& phc_hash_valid(users.user_rows()[i].password_hash@)
                        &&& phc_verifies(new_password@, users.user_rows()[i].password_hash@)
                    };
                let m = old(users).user_id_index(user_id@);
                assert(old(users).user_rows()[m].user_id == user_id@);
                assert(m == i);
                assert(phc_verifies(current_password@, old(users).user_rows()[i].password_hash@));
            }
            Ok(())
        },
        Err(()) => {
            Err(
                PasswordChangeError::UnexpectedError(
                    String::from_str("failed to store the new password hash"),
                ),
            )
        },
    }
}

} // verus!
