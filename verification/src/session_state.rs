//! The session store and its typed view: a mapping from unguessable session
//! identifiers to an optional authenticated user, each entry with a fixed
//! time to live. Renewal — a fresh identifier replacing the old one at
//! login — is the fixation-prevention mechanism.

use crate::entropy::fresh_u128;
use vstd::prelude::*;

verus! {

/// One session: its identifier, the authenticated user if any, and the
/// moment it expires.
pub struct SessionRow {
    pub session_id: u128,
    pub user_id: Option<u128>,
    pub expires_at: i64,
}

/// The session store: unique identifiers, a positive time to live.
pub struct SessionStore {
    rows: Vec<SessionRow>,
    ttl_millis: i64,
}

impl SessionStore {
    /// The sessions, as a sequence.
    pub closed spec fn rows(self) -> Seq<SessionRow> {
        self.rows@
    }

    /// The time to live given to every new or renewed session.
    pub closed spec fn ttl(self) -> i64 {
        self.ttl_millis
    }

    /// Some session carries this identifier.
    pub open spec fn has_session(self, sid: u128) -> bool {
        exists|i: int|
            0 <= i < self.rows().len() && (#[trigger] self.rows()[i]).session_id == sid
    }

    /// The session with this identifier is unexpired and carries this user.
    pub open spec fn authenticated_as(self, sid: u128, now: i64, uid: u128) -> bool {
        exists|i: int|
            0 <= i < self.rows().len() && (#[trigger] self.rows()[i]).session_id == sid && now
                < self.rows()[i].expires_at && self.rows()[i].user_id == Some(uid)
    }

    /// The session with this identifier is unexpired and carries some user.
    pub open spec fn authenticated(self, sid: u128, now: i64) -> bool {
        exists|uid: u128| self.authenticated_as(sid, now, uid)
    }

    /// Well-formedness: unique identifiers, positive time to live.
    pub open spec fn wf(self) -> bool {
        &&& forall|i: int, j: int|
            0 <= i < j < self.rows().len() ==> (#[trigger] self.rows()[i]).session_id != (
            #[trigger] self.rows()[j]).session_id
        &&& self.ttl() >= 1
    }

    /// An empty store.
    pub fn new(ttl_millis: i64) -> (r: SessionStore)
        requires
            ttl_millis >= 1,
        ensures
            r.wf(),
            r.rows().len() == 0,
            r.ttl() == ttl_millis,
    {
        SessionStore { rows: Vec::new(), ttl_millis }
    }

    /// Whether a session carries this identifier, expired or not.
    pub fn contains_session(&self, sid: u128) -> (r: bool)
        ensures
            r == self.has_session(sid),
    {
        let mut i: usize = 0;
        while i < self.rows.len()
            invariant
                i <= self.rows().len(),
                forall|j: int| 0 <= j < i ==> (#[trigger] self.rows()[j]).session_id != sid,
            decreases self.rows().len() - i,
        {
            if self.rows[i].session_id == sid {
                return true;
            }
            i = i + 1;
        }
        false
    }

    /// Creates a session, empty of any user, expiring one time-to-live from
    /// `now`. `Err` is the astronomically unlikely collision of the drawn
    /// identifier with a present one; nothing changes then.
    pub fn create(&mut self, now: i64) -> (r: Result<u128, ()>)
        requires
            old(self).wf(),
            now <= i64::MAX - old(self).ttl(),
        ensures
            final(self).wf(),
            final(self).ttl() == old(self).ttl(),
            r matches Ok(sid) ==> !old(self).has_session(sid) && final(self).rows() == old(
                self,
            ).rows().push(
                (SessionRow {
                    session_id: sid,
                    user_id: None,
                    expires_at: (now + old(self).ttl()) as i64,
                }),
            ),
            r is Err ==> *final(self) == *old(self),
    {
        let sid = fresh_u128();
        if self.contains_session(sid) {
            return Err(());
        }
        let expires_at = now + self.ttl_millis;
        self.rows.push(SessionRow { session_id: sid, user_id: None, expires_at });
        Ok(sid)
    }

    /// Destroys the session with this identifier; destroying an absent one
    /// changes nothing (logout is idempotent).
    #[verifier::loop_isolation(false)]
    pub fn destroy(&mut self, sid: u128)
        requires
            old(self).wf(),
        ensures
            final(self).wf(),
            final(self).ttl() == old(self).ttl(),
            !final(self).has_session(sid),
            old(self).has_session(sid) ==> exists|i: int|
                0 <= i < old(self).rows().len() && (#[trigger] old(self).rows()[i]).session_id
                    == sid && final(self).rows() == old(self).rows().remove(i),
            !old(self).has_session(sid) ==> *final(self) == *old(self),
    {
        let ghost old_self = *self;
        let mut i: usize = 0;
        while i < self.rows.len()
            invariant
                *self == old_self,
                i <= self.rows().len(),
                forall|j: int| 0 <= j < i ==> (#[trigger] self.rows()[j]).session_id != sid,
            decreases self.rows().len() - i,
        {
            if self.rows[i].session_id == sid {
                self.rows.remove(i);
                proof {
                    lemma_remove_keeps_unique(old_self.rows(), i as int);
                    assert forall|k: int|
                        0 <= k < self.rows().len() implies (#[trigger] self.rows()[k]).session_id
                        != sid by {
                        if k < i {
                            assert(self.rows()[k] == old_self.rows()[k]);
                        } else {
                            assert(self.rows()[k] == old_self.rows()[k + 1]);
                        }
                    }
                }
                return ;
            }
            i = i + 1;
        }
    }

    /// Writes the authenticated user into the session with this identifier.
    /// Succeeds exactly when the session exists.
    #[verifier::loop_isolation(false)]
    pub fn insert_user_id(&mut self, sid: u128, user_id: u128) -> (r: Result<(), ()>)
        requires
            old(self).wf(),
        ensures
            final(self).wf(),
            final(self).ttl() == old(self).ttl(),
            r is Ok <==> old(self).has_session(sid),
            r is Ok ==> exists|i: int|
                0 <= i < old(self).rows().len() && (#[trigger] old(self).rows()[i]).session_id
                    == sid && final(self).rows() == old(self).rows().update(
                    i,
                    (SessionRow { user_id: Some(user_id), ..old(self).rows()[i] }),
                ),
            r is Err ==> *final(self) == *old(self),
    {
        let ghost old_self = *self;
        let mut i: usize = 0;
        while i < self.rows.len()
            invariant
                *self == old_self,
                i <= self.rows().len(),
                forall|j: int| 0 <= j < i ==> (#[trigger] self.rows()[j]).session_id != sid,
            decreases self.rows().len() - i,
        {
            if self.rows[i].session_id == sid {
                let expires_at = self.rows[i].expires_at;
                self.rows[i] = SessionRow { session_id: sid, user_id: Some(user_id), expires_at };
                return Ok(());
            }
            i = i + 1;
        }
        Err(())
    }

    /// The authenticated user of an unexpired session, if any.
    #[verifier::loop_isolation(false)]
    pub fn get_user_id(&self, sid: u128, now: i64) -> (r: Option<u128>)
        requires
            self.wf(),
        ensures
            r matches Some(uid) ==> self.authenticated_as(sid, now, uid),
            r is Some <==> self.authenticated(sid, now),
    {
        let mut i: usize = 0;
        while i < self.rows.len()
            invariant
                i <= self.rows().len(),
                forall|j: int| 0 <= j < i ==> (#[trigger] self.rows()[j]).session_id != sid,
            decreases self.rows().len() - i,
        {
            if self.rows[i].session_id == sid {
                if now < self.rows[i].expires_at {
                    proof {
                        if self.rows[i as int].user_id is Some {
                            let uid = self.rows[i as int].user_id->0;
                            assert(self.authenticated_as(sid, now, uid));
                        }
                        if self.authenticated(sid, now) {
                            let uid = choose|uid: u128| self.authenticated_as(sid, now, uid);
                            let k = choose|k: int|
                                0 <= k < self.rows().len() && (
                                #[trigger] self.rows()[k]).session_id == sid && now
                                    < self.rows()[k].expires_at && self.rows()[k].user_id == Some(
                                    uid,
                                );
                            assert(k == i);
                        }
                    }
                    return self.rows[i].user_id;
                } else {
                    proof {
                        if self.authenticated(sid, now) {
                            let uid = choose|uid: u128| self.authenticated_as(sid, now, uid);
                            let k = choose|k: int|
                                0 <= k < self.rows().len() && (
                                #[trigger] self.rows()[k]).session_id == sid && now
                                    < self.rows()[k].expires_at && self.rows()[k].user_id == Some(
                                    uid,
                                );
                            assert(k == i);
                        }
                    }
                    return None;
                }
            }
            i = i + 1;
        }
        proof {
            if self.authenticated(sid, now) {
                let uid = choose|uid: u128| self.authenticated_as(sid, now, uid);
            }
        }
        None
    }

    /// Renews a session: the old identifier is destroyed and a fresh, empty
    /// one takes its place, expiring one time-to-live from `now`. `Err` is an
    /// identifier collision; nothing changes then.
    pub fn renew(&mut self, old_sid: u128, now: i64) -> (r: Result<u128, ()>)
        requires
            old(self).wf(),
            now <= i64::MAX - old(self).ttl(),
        ensures
            final(self).wf(),
            final(self).ttl() == old(self).ttl(),
            r matches Ok(new_sid) ==> ({
                let new_row = SessionRow {
                    session_id: new_sid,
                    user_id: None,
                    expires_at: (now + old(self).ttl()) as i64,
                };
                &&& new_sid != old_sid
                &&& !old(self).has_session(new_sid)
                &&& !final(self).has_session(old_sid)
                &&& final(self).has_session(new_sid)
                &&& final(self).rows().len() >= 1
                &&& final(self).rows().last() == new_row
                &&& (old(self).has_session(old_sid) ==> exists|i: int|
                    0 <= i < old(self).rows().len() && (#[trigger] old(self).rows()[i]).session_id
                        == old_sid && final(self).rows() == old(self).rows().remove(i).push(
                        new_row,
                    ))
                &&& (!old(self).has_session(old_sid) ==> final(self).rows() == old(
                    self,
                ).rows().push(new_row))
            }),
            r is Err ==> *final(self) == *old(self),
    {
        let new_sid = fresh_u128();
        if new_sid == old_sid {
            return Err(());
        }
        if self.contains_session(new_sid) {
            return Err(());
        }
        let ghost before = *self;
        self.destroy(old_sid);
        proof {
            if before.has_session(old_sid) {
                let i = choose|i: int|
                    0 <= i < before.rows().len() && (#[trigger] before.rows()[i]).session_id
                        == old_sid && self.rows() == before.rows().remove(i);
                assert forall|k: int|
                    0 <= k < self.rows().len() implies (#[trigger] self.rows()[k]).session_id
                    != new_sid by {
                    if k < i {
                        assert(self.rows()[k] == before.rows()[k]);
                    } else {
                        assert(self.rows()[k] == before.rows()[k + 1]);
                    }
                }
            }
        }
        let expires_at = now + self.ttl_millis;
        self.rows.push(SessionRow { session_id: new_sid, user_id: None, expires_at });
        proof {
            let n = self.rows().len() - 1;
            assert(self.rows()[n].session_id == new_sid);
        }
        Ok(new_sid)
    }

    /// The number of sessions, expired ones included.
    pub fn session_count(&self) -> (r: usize)
        ensures
            r == self.rows().len(),
    {
        self.rows.len()
    }
}

/// A session identifier that is gone — destroyed by logout, or replaced by a
/// renewal — authenticates nobody, at any time: the access gate can only
/// redirect it to the login page.
pub proof fn lemma_no_session_no_authentication(store: SessionStore, sid: u128, now: i64)
    requires
        !store.has_session(sid),
    ensures
        !store.authenticated(sid, now),
        forall|uid: u128| !store.authenticated_as(sid, now, uid),
{
    assert forall|uid: u128| !store.authenticated_as(sid, now, uid) by {
        if store.authenticated_as(sid, now, uid) {
            let i = choose|i: int|
                0 <= i < store.rows().len() && (#[trigger] store.rows()[i]).session_id == sid && now
                    < store.rows()[i].expires_at && store.rows()[i].user_id == Some(uid);
            assert(store.has_session(sid));
        }
    }
}

/// An expired session authenticates nobody: once every entry with this
/// identifier has passed its expiry, the access gate can only redirect.
pub proof fn lemma_expired_session_no_authentication(store: SessionStore, sid: u128, now: i64)
    requires
        forall|i: int|
            0 <= i < store.rows().len() && (#[trigger] store.rows()[i]).session_id == sid ==> now
                >= store.rows()[i].expires_at,
    ensures
        !store.authenticated(sid, now),
{
    assert forall|uid: u128| !store.authenticated_as(sid, now, uid) by {
        if store.authenticated_as(sid, now, uid) {
            let i = choose|i: int|
                0 <= i < store.rows().len() && (#[trigger] store.rows()[i]).session_id == sid && now
                    < store.rows()[i].expires_at && store.rows()[i].user_id == Some(uid);
        }
    }
}

/// Removing one element keeps pairwise-distinct session identifiers.
proof fn lemma_remove_keeps_unique(rows: Seq<SessionRow>, i: int)
    requires
        0 <= i < rows.len(),
        forall|a: int, b: int|
            0 <= a < b < rows.len() ==> (#[trigger] rows[a]).session_id != (
            #[trigger] rows[b]).session_id,
    ensures
        forall|a: int, b: int|
            0 <= a < b < rows.remove(i).len() ==> (#[trigger] rows.remove(i)[a]).session_id != (
            #[trigger] rows.remove(i)[b]).session_id,
{
    let cut = rows.remove(i);
    assert forall|a: int, b: int|
        0 <= a < b < cut.len() implies (#[trigger] cut[a]).session_id != (
    #[trigger] cut[b]).session_id by {
        let a0 = if a < i { a } else { a + 1 };
        let b0 = if b < i { b } else { b + 1 };
        assert(cut[a] == rows[a0]);
        assert(cut[b] == rows[b0]);
    }
}

} // verus!
