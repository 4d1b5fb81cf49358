//! The subscriber repository: transactional persistence for subscriber rows
//! and their confirmation tokens, modelled as in-memory tables.
//!
//! The one multi-step write — a subscriber together with its token — is a
//! single operation that either applies both rows or leaves the repository
//! exactly as it was, the transaction contract of the admission flow.

use crate::strutil::str_eq;
use vstd::prelude::*;

verus! {

/// A subscriber's confirmation state: starts pending, moves at most once to
/// confirmed, never back.
#[derive(Clone, Copy, PartialEq, Eq, Structural, Debug)]
pub enum SubscriberStatus {
    PendingConfirmation,
    Confirmed,
}

/// One persisted subscriber.
pub struct SubscriberRow {
    pub id: u128,
    pub email: String,
    pub name: String,
    pub status: SubscriberStatus,
    pub subscribed_at: i64,
}

/// One persisted confirmation token, referencing exactly one subscriber.
pub struct TokenRow {
    pub token: String,
    pub subscriber_id: u128,
}

/// The two tables, with unique subscriber ids, unique tokens, and every
/// token referencing an existing subscriber.
pub struct SubscriberRepository {
    subscribers: Vec<SubscriberRow>,
    tokens: Vec<TokenRow>,
}

/// `row` with its status set to confirmed and every other field kept.
pub open spec fn confirm_row(row: SubscriberRow) -> SubscriberRow {
    SubscriberRow { status: SubscriberStatus::Confirmed, ..row }
}

/// Every row with the given id confirmed; every other row untouched.
pub open spec fn spec_mark_confirmed(rows: Seq<SubscriberRow>, id: u128) -> Seq<SubscriberRow> {
    rows.map(|i: int, row: SubscriberRow| if row.id == id { confirm_row(row) } else { row })
}

impl SubscriberRepository {
    /// The subscriber table, as a sequence.
    pub closed spec fn subscriber_rows(self) -> Seq<SubscriberRow> {
        self.subscribers@
    }

    /// The token table, as a sequence.
    pub closed spec fn token_rows(self) -> Seq<TokenRow> {
        self.tokens@
    }

    /// Some subscriber row carries this id.
    pub open spec fn has_subscriber_id(self, id: u128) -> bool {
        exists|i: int|
            0 <= i < self.subscriber_rows().len() && (#[trigger] self.subscriber_rows()[i]).id
                == id
    }

    /// Some token row carries this token text.
    pub open spec fn has_token(self, token: Seq<char>) -> bool {
        exists|i: int|
            0 <= i < self.token_rows().len() && (#[trigger] self.token_rows()[i]).token@ == token
    }

    /// Some token row carries this token text and references this subscriber.
    pub open spec fn token_maps_to(self, token: Seq<char>, id: u128) -> bool {
        exists|i: int|
            0 <= i < self.token_rows().len() && (#[trigger] self.token_rows()[i]).token@ == token
                && self.token_rows()[i].subscriber_id == id
    }

    /// Well-formedness: unique ids, unique tokens, referential integrity.
    pub open spec fn wf(self) -> bool {
        &&& forall|i: int, j: int|
            0 <= i < j < self.subscriber_rows().len() ==> (
            #[trigger] self.subscriber_rows()[i]).id != (#[trigger] self.subscriber_rows()[j]).id
        &&& forall|i: int, j: int|
            0 <= i < j < self.token_rows().len() ==> (#[trigger] self.token_rows()[i]).token@ != (
            #[trigger] self.token_rows()[j]).token@
        &&& forall|i: int|
            0 <= i < self.token_rows().len() ==> self.has_subscriber_id(
                (#[trigger] self.token_rows()[i]).subscriber_id,
            )
    }

    /// An empty repository.
    pub fn new() -> (r: SubscriberRepository)
        ensures
            r.wf(),
            r.subscriber_rows().len() == 0,
            r.token_rows().len() == 0,
    {
        SubscriberRepository { subscribers: Vec::new(), tokens: Vec::new() }
    }

    /// Whether a subscriber row carries this id.
    pub fn contains_subscriber_id(&self, id: u128) -> (r: bool)
        ensures
            r == self.has_subscriber_id(id),
    {
        let mut i: usize = 0;
        while i < self.subscribers.len()
            invariant
                i <= self.subscriber_rows().len(),
                forall|j: int| 0 <= j < i ==> (#[trigger] self.subscriber_rows()[j]).id != id,
            decreases self.subscriber_rows().len() - i,
        {
            if self.subscribers[i].id == id {
                return true;
            }
            i = i + 1;
        }
        false
    }

    /// Whether a token row carries this token text.
    pub fn contains_token(&self, token: &str) -> (r: bool)
        ensures
            r == self.has_token(token@),
    {
        let mut i: usize = 0;
        while i < self.tokens.len()
            invariant
                i <= self.token_rows().len(),
                forall|j: int| 0 <= j < i ==> (#[trigger] self.token_rows()[j]).token@ != token@,
            decreases self.token_rows().len() - i,
        {
            if str_eq(self.tokens[i].token.as_str(), token) {
                return true;
            }
            i = i + 1;
        }
        false
    }

    /// The one transaction of the admission flow: inserts the subscriber row
    /// and its token row together, or — when the id or the token is already
    /// taken — changes nothing at all.
    pub fn insert_subscriber_with_token(
        &mut self,
        id: u128,
        email: String,
        name: String,
        subscribed_at: i64,
        token: String,
    ) -> (r: Result<(), ()>)
        requires
            old(self).wf(),
        ensures
            final(self).wf(),
            r is Ok <==> !old(self).has_subscriber_id(id) && !old(self).has_token(token@),
            r is Ok ==> final(self).subscriber_rows() == old(self).subscriber_rows().push(
                (SubscriberRow {
                    id,
                    email,
                    name,
                    status: SubscriberStatus::PendingConfirmation,
                    subscribed_at,
                }),
            ) && final(self).token_rows() == old(self).token_rows().push(
                (TokenRow { token, subscriber_id: id }),
            ),
            r is Err ==> *final(self) == *old(self),
    {
        if self.contains_subscriber_id(id) {
            return Err(());
        }
        if self.contains_token(token.as_str()) {
            return Err(());
        }
        let ghost old_self = *self;
        self.subscribers.push(
            SubscriberRow {
                id,
                email,
                name,
                status: SubscriberStatus::PendingConfirmation,
                subscribed_at,
            },
        );
        self.tokens.push(TokenRow { token, subscriber_id: id });
        proof {
            assert forall|i: int| 0 <= i < self.token_rows().len() implies self.has_subscriber_id(
                (#[trigger] self.token_rows()[i]).subscriber_id,
            ) by {
                if i < old_self.token_rows().len() {
                    assert(old_self.has_subscriber_id(old_self.token_rows()[i].subscriber_id));
                    let w = choose|k: int|
                        0 <= k < old_self.subscriber_rows().len() && (
                        #[trigger] old_self.subscriber_rows()[k]).id
                            == old_self.token_rows()[i].subscriber_id;
                    assert(self.subscriber_rows()[w].id == self.token_rows()[i].subscriber_id);
                } else {
                    let n = self.subscriber_rows().len() - 1;
                    assert(self.subscriber_rows()[n].id == id);
                }
            }
        }
        Ok(())
    }

    /// The subscriber a token belongs to, if the token exists at all.
    pub fn find_subscriber_id_by_token(&self, token: &str) -> (r: Option<u128>)
        ensures
            r matches Some(id) ==> self.token_maps_to(token@, id),
            r is None <==> !self.has_token(token@),
    {
        let mut i: usize = 0;
        while i < self.tokens.len()
            invariant
                i <= self.token_rows().len(),
                forall|j: int| 0 <= j < i ==> (#[trigger] self.token_rows()[j]).token@ != token@,
            decreases self.token_rows().len() - i,
        {
            if str_eq(self.tokens[i].token.as_str(), token) {
                return Some(self.tokens[i].subscriber_id);
            }
            i = i + 1;
        }
        None
    }

    /// Confirms the subscriber with this id; a second call with the same id
    /// changes nothing more. Rows with other ids are untouched.
    pub fn mark_confirmed(&mut self, id: u128)
        requires
            old(self).wf(),
        ensures
            final(self).wf(),
            final(self).subscriber_rows() == spec_mark_confirmed(old(self).subscriber_rows(), id),
            final(self).token_rows() == old(self).token_rows(),
    {
        let ghost old_self = *self;
        let mut i: usize = 0;
        while i < self.subscribers.len()
            invariant
                i <= self.subscriber_rows().len(),
                self.subscriber_rows().len() == old_self.subscriber_rows().len(),
                self.tokens@ == old_self.tokens@,
                forall|j: int|
                    0 <= j < i ==> #[trigger] self.subscriber_rows()[j] == (
                    if old_self.subscriber_rows()[j].id == id {
                        confirm_row(old_self.subscriber_rows()[j])
                    } else {
                        old_self.subscriber_rows()[j]
                    }),
                forall|j: int|
                    i <= j < self.subscriber_rows().len() ==> #[trigger] self.subscriber_rows()[j]
                        == old_self.subscriber_rows()[j],
            decreases self.subscriber_rows().len() - i,
        {
            if self.subscribers[i].id == id {
                self.subscribers[i].status = SubscriberStatus::Confirmed;
            }
            i = i + 1;
        }
        proof {
            assert(self.subscriber_rows() =~= spec_mark_confirmed(
                old_self.subscriber_rows(),
                id,
            ));
            lemma_mark_confirmed_wf(old_self, *self, id);
        }
    }

    /// The status of the subscriber with this id, if any.
    pub fn get_status(&self, id: u128) -> (r: Option<SubscriberStatus>)
        requires
            self.wf(),
        ensures
            r is Some <==> self.has_subscriber_id(id),
            r matches Some(st) ==> exists|i: int|
                0 <= i < self.subscriber_rows().len()
                    && (#[trigger] self.subscriber_rows()[i]).id == id
                    && self.subscriber_rows()[i].status == st,
    {
        let mut i: usize = 0;
        while i < self.subscribers.len()
            invariant
                i <= self.subscriber_rows().len(),
                forall|j: int| 0 <= j < i ==> (#[trigger] self.subscriber_rows()[j]).id != id,
            decreases self.subscriber_rows().len() - i,
        {
            if self.subscribers[i].id == id {
                return Some(self.subscribers[i].status);
            }
            i = i + 1;
        }
        None
    }

    /// The number of subscriber rows.
    pub fn subscriber_count(&self) -> (r: usize)
        ensures
            r == self.subscriber_rows().len(),
    {
        self.subscribers.len()
    }

    /// The subscriber row at an index.
    pub fn subscriber_at(&self, i: usize) -> (r: &SubscriberRow)
        requires
            i < self.subscriber_rows().len(),
        ensures
            *r == self.subscriber_rows()[i as int],
    {
        &self.subscribers[i]
    }

    /// The number of token rows.
    pub fn token_count(&self) -> (r: usize)
        ensures
            r == self.token_rows().len(),
    {
        self.tokens.len()
    }

    /// The token row at an index.
    pub fn token_at(&self, i: usize) -> (r: &TokenRow)
        requires
            i < self.token_rows().len(),
        ensures
            *r == self.token_rows()[i as int],
    {
        &self.tokens[i]
    }
}

/// Two admissions create two subscribers that stay independent: with the
/// second id fresh (as the transaction demands), both rows sit in the table
/// as inserted, and confirming the first leaves the second — still pending —
/// exactly as it was.
pub proof fn lemma_two_subscriptions_independent(
    subs: Seq<SubscriberRow>,
    row1: SubscriberRow,
    row2: SubscriberRow,
)
    requires
        row1.id != row2.id,
        row1.status == SubscriberStatus::PendingConfirmation,
        row2.status == SubscriberStatus::PendingConfirmation,
    ensures
        ({
            let after = subs.push(row1).push(row2);
            let confirmed_first = spec_mark_confirmed(after, row1.id);
            &&& after[subs.len() as int] == row1
            &&& after[subs.len() as int + 1] == row2
            &&& confirmed_first.len() == after.len()
            &&& confirmed_first[subs.len() as int] == confirm_row(row1)
            &&& confirmed_first[subs.len() as int + 1] == row2
        }),
{
    let after = subs.push(row1).push(row2);
    assert(after[subs.len() as int] == row1);
    assert(after[subs.len() as int + 1] == row2);
}

/// Confirming is idempotent: confirming the same subscriber a second time
/// changes nothing at all.
pub proof fn lemma_mark_confirmed_idempotent(rows: Seq<SubscriberRow>, id: u128)
    ensures
        spec_mark_confirmed(spec_mark_confirmed(rows, id), id) == spec_mark_confirmed(rows, id),
{
    assert(spec_mark_confirmed(spec_mark_confirmed(rows, id), id) =~= spec_mark_confirmed(
        rows,
        id,
    ));
}

/// A subscriber's status moves one way: no confirmation, of this subscriber
/// or any other, ever takes a confirmed row back to pending.
pub proof fn lemma_mark_confirmed_monotone(rows: Seq<SubscriberRow>, id: u128, i: int)
    requires
        0 <= i < rows.len(),
        rows[i].status == SubscriberStatus::Confirmed,
    ensures
        spec_mark_confirmed(rows, id)[i].status == SubscriberStatus::Confirmed,
{
}

/// Confirming preserves well-formedness: ids, tokens and references are all
/// unchanged by a status update.
proof fn lemma_mark_confirmed_wf(
    before: SubscriberRepository,
    after: SubscriberRepository,
    id: u128,
)
    requires
        before.wf(),
        after.subscriber_rows() == spec_mark_confirmed(before.subscriber_rows(), id),
        after.token_rows() == before.token_rows(),
    ensures
        after.wf(),
{
    assert forall|i: int| 0 <= i < after.token_rows().len() implies after.has_subscriber_id(
        (#[trigger] after.token_rows()[i]).subscriber_id,
    ) by {
        let w = choose|k: int|
            0 <= k < before.subscriber_rows().len() && (#[trigger] before.subscriber_rows()[k]).id
                == before.token_rows()[i].subscriber_id;
        assert(after.subscriber_rows()[w].id == after.token_rows()[i].subscriber_id);
    }
}

} // verus!
