//! Password hashing and credential validation.
//!
//! Hashes are PHC strings produced by a memory-hard function (Argon2id) with
//! a fresh random salt per password; the string carries its own algorithm,
//! parameters and salt, so verification needs no out-of-band configuration.
//! An unknown username takes the same code path as a wrong password: a
//! fixed, well-formed hash is verified against, so response content — and,
//! within the primitive's tolerance, timing — does not reveal whether the
//! username exists.

use crate::strutil::str_eq;
use vstd::prelude::*;
use vstd::string::StringExecFns;

verus! {

/// The pair the login form submits.
pub struct Credentials {
    pub username: String,
    pub password: String,
}

/// Authentication failures: the user-facing rejection, and the internal
/// failure (with its cause) that is never detailed to the caller.
pub enum AuthError {
    InvalidCredentials(String),
    UnexpectedError(String),
}

/// What argon2's verification decides for a password against a PHC string;
/// a function of the two arguments alone.
pub uninterp spec fn phc_verifies(password: Seq<char>, phc: Seq<char>) -> bool;

/// Whether argon2 accepts a PHC string as parseable and verifiable; a
/// function of the string alone.
pub uninterp spec fn phc_hash_valid(phc: Seq<char>) -> bool;

/// Relies on argon2's `PasswordHasher::hash_password` for `Argon2::default()`
/// (Argon2id), salted by `SaltString::generate` from the operating system's
/// randomness: on success the returned PHC string is one argon2 parses back,
/// and it verifies against exactly the password hashed here.
#[verifier::external_body]
fn compute_password_hash(password: &str) -> (r: Result<String, ()>)
    ensures
        r matches Ok(h) ==> phc_hash_valid(h@) && phc_verifies(password@, h@),
{
    let salt = argon2::password_hash::SaltString::generate(
        &mut argon2::password_hash::rand_core::OsRng,
    );
    match argon2::PasswordHasher::hash_password(
        &argon2::Argon2::default(),
        password.as_bytes(),
        &salt,
    ) {
        Ok(hash) => Ok(hash.to_string()),
        Err(_) => Err(()),
    }
}

/// Relies on argon2's `PasswordVerifier::verify_password` for
/// `Argon2::default()`, with `PasswordHash::new` converting the stored PHC
/// string: a match is `Ok(true)`, a mismatch `Ok(false)`, and a stored
/// string argon2 cannot parse or verify against is `Err`.
#[verifier::external_body]
fn verify_password_phc(password: &str, phc: &str) -> (r: Result<bool, ()>)
    ensures
        r matches Ok(b) ==> phc_hash_valid(phc@) && b == phc_verifies(password@, phc@),
        r is Err <==> !phc_hash_valid(phc@),
{
    match argon2::PasswordHash::new(phc) {
        Ok(parsed) => match argon2::PasswordVerifier::verify_password(
            &argon2::Argon2::default(),
            password.as_bytes(),
            &parsed,
        ) {
            Ok(()) => Ok(true),
            Err(argon2::password_hash::Error::Password) => Ok(false),
            Err(_) => Err(()),
        },
        Err(_) => Err(()),
    }
}

/// The fixed hash verified against when the username is unknown, keeping
/// that path identical to the known-username one.
const FALLBACK_PASSWORD_HASH: &'static str = "$argon2id$v=19$m=15000,t=2,p=1$gZiV/M1gPc22ElAH/Jh1Hw$CWOrkoo7oJBQ/iyh7uJ0LO2aLEfrHwTWllSAxT0zRno";

/// One operator account.
pub struct UserRow {
    pub user_id: u128,
    pub username: String,
    pub password_hash: String,
}

/// The user table: unique ids, unique usernames.
pub struct UserStore {
    users: Vec<UserRow>,
}

impl UserStore {
    /// The accounts, as a sequence.
    pub closed spec fn user_rows(self) -> Seq<UserRow> {
        self.users@
    }

    /// Some account carries this id.
    pub open spec fn has_user_id(self, uid: u128) -> bool {
        exists|i: int|
            0 <= i < self.user_rows().len() && (#[trigger] self.user_rows()[i]).user_id == uid
    }

    /// Some account carries this username.
    pub open spec fn has_username(self, username: Seq<char>) -> bool {
        exists|i: int|
            0 <= i < self.user_rows().len() && (#[trigger] self.user_rows()[i]).username@
                == username
    }

    /// The index of the account with this username (meaningful only when one
    /// exists; unique by well-formedness).
    pub open spec fn username_index(self, username: Seq<char>) -> int {
        choose|i: int|
            0 <= i < self.user_rows().len() && (#[trigger] self.user_rows()[i]).username@
                == username
    }

    /// The account with this username, if any.
    pub open spec fn spec_user(self, username: Seq<char>) -> Option<UserRow> {
        if self.has_username(username) {
            Some(self.user_rows()[self.username_index(username)])
        } else {
            None
        }
    }

    /// The index of the account with this id (meaningful only when one
    /// exists; unique by well-formedness).
    pub open spec fn user_id_index(self, uid: u128) -> int {
        choose|i: int|
            0 <= i < self.user_rows().len() && (#[trigger] self.user_rows()[i]).user_id == uid
    }

    /// The account with this id, if any.
    pub open spec fn spec_user_by_id(self, uid: u128) -> Option<UserRow> {
        if self.has_user_id(uid) {
            Some(self.user_rows()[self.user_id_index(uid)])
        } else {
            None
        }
    }

    /// These credentials name account `uid` and its stored hash accepts the
    /// password.
    pub open spec fn credentials_match(
        self,
        username: Seq<char>,
        password: Seq<char>,
        uid: u128,
    ) -> bool {
        exists|i: int|
            0 <= i < self.user_rows().len() && (#[trigger] self.user_rows()[i]).username@
                == username && phc_verifies(password, self.user_rows()[i].password_hash@)
                && self.user_rows()[i].user_id == uid
    }

    /// Well-formedness: unique ids and unique usernames.
    pub open spec fn wf(self) -> bool {
        &&& forall|i: int, j: int|
            0 <= i < j < self.user_rows().len() ==> (#[trigger] self.user_rows()[i]).user_id != (
            #[trigger] self.user_rows()[j]).user_id
        &&& forall|i: int, j: int|
            0 <= i < j < self.user_rows().len() ==> (#[trigger] self.user_rows()[i]).username@ != (
            #[trigger] self.user_rows()[j]).username@
    }

    /// An empty store.
    pub fn new() -> (r: UserStore)
        ensures
            r.wf(),
            r.user_rows().len() == 0,
    {
        UserStore { users: Vec::new() }
    }

    /// Whether an account carries this username.
    #[verifier::loop_isolation(false)]
    pub fn contains_username(&self, username: &str) -> (r: bool)
        ensures
            r == self.has_username(username@),
    {
        let mut i: usize = 0;
        while i < self.users.len()
            invariant
                i <= self.user_rows().len(),
                forall|j: int| 0 <= j < i ==> (#[trigger] self.user_rows()[j]).username@
                    != username@,
            decreases self.user_rows().len() - i,
        {
            if str_eq(self.users[i].username.as_str(), username) {
                return true;
            }
            i = i + 1;
        }
        false
    }

    /// Whether an account carries this id.
    #[verifier::loop_isolation(false)]
    pub fn contains_user_id(&self, uid: u128) -> (r: bool)
        ensures
            r == self.has_user_id(uid),
    {
        let mut i: usize = 0;
        while i < self.users.len()
            invariant
                i <= self.user_rows().len(),
                forall|j: int| 0 <= j < i ==> (#[trigger] self.user_rows()[j]).user_id != uid,
            decreases self.user_rows().len() - i,
        {
            if self.users[i].user_id == uid {
                return true;
            }
            i = i + 1;
        }
        false
    }

    /// Creates an account with a fresh id and the password hashed. `Err` —
    /// with nothing changed — when the username is taken, the drawn id
    /// collides, or hashing fails.
    pub fn add_user(&mut self, username: String, password: &str) -> (r: Result<u128, ()>)
        requires
            old(self).wf(),
        ensures
            final(self).wf(),
            r matches Ok(uid) ==> ({
                &&& !old(self).has_username(username@)
                &&& !old(self).has_user_id(uid)
                &&& final(self).user_rows().len() == old(self).user_rows().len() + 1
                &&& final(self).user_rows().drop_last() == old(self).user_rows()
                &&& final(self).user_rows().last().user_id == uid
                &&& final(self).user_rows().last().username@ == username@
                &&& phc_hash_valid(final(self).user_rows().last().password_hash@)
                &&& phc_verifies(password@, final(self).user_rows().last().password_hash@)
            }),
            old(self).has_username(username@) ==> r is Err,
            r is Err ==> *final(self) == *old(self),
    {
        if self.contains_username(username.as_str()) {
            return Err(());
        }
        let uid = crate::entropy::fresh_u128();
        if self.contains_user_id(uid) {
            return Err(());
        }
        let password_hash = match compute_password_hash(password) {
            Ok(h) => h,
            Err(()) => {
                return Err(());
            },
        };
        self.users.push(UserRow { user_id: uid, username, password_hash });
        proof {
            assert(self.user_rows().drop_last() =~= old(self).user_rows());
        }
        Ok(uid)
    }

    /// The username of the account with this id, if any.
    #[verifier::loop_isolation(false)]
    pub fn username_of(&self, user_id: u128) -> (r: Option<String>)
        requires
            self.wf(),
        ensures
            r matches Some(name) ==> exists|i: int|
                0 <= i < self.user_rows().len() && (#[trigger] self.user_rows()[i]).user_id
                    == user_id && self.user_rows()[i].username@ == name@,
            r is None <==> !self.has_user_id(user_id),
    {
        let mut i: usize = 0;
        while i < self.users.len()
            invariant
                i <= self.user_rows().len(),
                forall|j: int| 0 <= j < i ==> (#[trigger] self.user_rows()[j]).user_id != user_id,
            decreases self.user_rows().len() - i,
        {
            if self.users[i].user_id == user_id {
                return Some(self.users[i].username.clone());
            }
            i = i + 1;
        }
        None
    }

    /// Replaces the stored hash of account `user_id` with a hash of
    /// `new_password`; every other account is untouched. `Err` — with
    /// nothing changed — when the account is absent or hashing fails.
    #[verifier::loop_isolation(false)]
    pub fn update_password(&mut self, user_id: u128, new_password: &str) -> (r: Result<(), ()>)
        requires
            old(self).wf(),
        ensures
            final(self).wf(),
            !old(self).has_user_id(user_id) ==> r is Err,
            r is Err ==> *final(self) == *old(self),
            r is Ok ==> exists|i: int|
                ({
                    &&& 0 <= i < old(self).user_rows().len()
                    &&& (#[trigger] old(self).user_rows()[i]).user_id == user_id
                    &&& final(self).user_rows().len() == old(self).user_rows().len()
                    &&& (forall|j: int|
                        0 <= j < old(self).user_rows().len() && j != i
                            ==> final(self).user_rows()[j] == old(self).user_rows()[j])
                    &&& final(self).user_rows()[i].user_id == user_id
                    &&& final(self).user_rows()[i].username == old(self).user_rows()[i].username
                    &&& phc_hash_valid(final(self).user_rows()[i].password_hash@)
                    &&& phc_verifies(new_password@, final(self).user_rows()[i].password_hash@)
                }),
    {
        let mut i: usize = 0;
        while i < self.users.len()
            invariant
                *self == *old(self),
                i <= self.user_rows().len(),
                forall|j: int| 0 <= j < i ==> (#[trigger] self.user_rows()[j]).user_id != user_id,
            decreases self.user_rows().len() - i,
        {
            if self.users[i].user_id == user_id {
                let password_hash = match compute_password_hash(new_password) {
                    Ok(h) => h,
                    Err(()) => {
                        return Err(());
                    },
                };
                let username = self.users[i].username.clone();
                self.users[i] = UserRow { user_id, username, password_hash };
                return Ok(());
            }
            i = i + 1;
        }
        Err(())
    }
}

/// Validates login credentials against the user table.
///
/// An unknown username still performs one verification (against the fixed
/// fallback hash) and then fails exactly as a wrong password does: same
/// variant, same message.
#[verifier::loop_isolation(false)]
pub fn validate_credentials(credentials: &Credentials, store: &UserStore) -> (r: Result<
    u128,
    AuthError,
>)
    requires
        store.wf(),
    ensures
        r matches Ok(uid) ==> store.credentials_match(
            credentials.username@,
            credentials.password@,
            uid,
        ),
        store.spec_user(credentials.username@) matches Some(row) ==> ({
            if !phc_hash_valid(row.password_hash@) {
                r matches Err(e) && e is UnexpectedError
            } else if phc_verifies(credentials.password@, row.password_hash@) {
                r == Ok::<u128, AuthError>(row.user_id)
            } else {
                r matches Err(e) && e matches AuthError::InvalidCredentials(m) && m@
                    == "Invalid credentials."@
            }
        }),
        store.spec_user(credentials.username@) is None ==> (r matches Err(e) && e matches
            AuthError::InvalidCredentials(m) && m@ == "Invalid credentials."@),
{
    let mut i: usize = 0;
    while i < store.users.len()
        invariant
            i <= store.user_rows().len(),
            forall|j: int| 0 <= j < i ==> (#[trigger] store.user_rows()[j]).username@
                != credentials.username@,
        decreases store.user_rows().len() - i,
    {
        if str_eq(store.users[i].username.as_str(), credentials.username.as_str()) {
            proof {
                assert(store.has_username(credentials.username@));
                let k = store.username_index(credentials.username@);
                assert(0 <= k < store.user_rows().len() && store.user_rows()[k].username@
                    == credentials.username@);
                assert(k == i);
            }
            match verify_password_phc(
                credentials.password.as_str(),
                store.users[i].password_hash.as_str(),
            ) {
                Ok(true) => {
                    return Ok(store.users[i].user_id);
                },
                Ok(false) => {
                    return Err(
                        AuthError::InvalidCredentials(String::from_str("Invalid credentials.")),
                    );
                },
                Err(()) => {
                    return Err(
                        AuthError::UnexpectedError(
                            String::from_str("failed to parse the stored password hash"),
                        ),
                    );
                },
            }
        }
        i = i + 1;
    }
    let _ = verify_password_phc(credentials.password.as_str(), FALLBACK_PASSWORD_HASH);
    Err(AuthError::InvalidCredentials(String::from_str("Invalid credentials.")))
}

} // verus!
