//! Token-gated confirmation: an opaque token from an inbound link either
//! names a subscriber — whose status then moves, idempotently, to confirmed
//! — or is rejected as unauthorized, with no hint whether it ever existed.

use crate::repository::SubscriberRepository;
use crate::repository::spec_mark_confirmed;
use crate::utils::Response;
use vstd::prelude::*;

verus! {

/// The query parameters of the confirmation link.
pub struct Parameters {
    pub subscription_token: String,
}

/// Confirms the subscriber a token belongs to.
///
/// An unknown token — malformed or merely absent — is exactly the 401
/// answer, with the repository untouched: the caller learns nothing about
/// whether the token ever existed. A known token is exactly the 200 answer,
/// with that subscriber confirmed and every other row untouched; repeating
/// the call is a 200 again with nothing further changed. No other status
/// comes out of this lookup.
pub fn confirm(parameters: &Parameters, repo: &mut SubscriberRepository) -> (r: Response)
    requires
        old(repo).wf(),
    ensures
        final(repo).wf(),
        r.status == 200 || r.status == 401,
        (r.status == 401) <==> !old(repo).has_token(parameters.subscription_token@),
        r.status == 401 ==> *final(repo) == *old(repo),
        r.status == 200 ==> exists|id: u128|
            {
                &&& #[trigger] old(repo).token_maps_to(parameters.subscription_token@, id)
                &&& final(repo).subscriber_rows() == spec_mark_confirmed(
                    old(repo).subscriber_rows(),
                    id,
                )
                &&& final(repo).token_rows() == old(repo).token_rows()
            },
{
    let id = match get_subscriber_id_from_token(repo, parameters.subscription_token.as_str()) {
        Some(id) => id,
        None => {
            return Response { status: 401, location: None, flash: None };
        },
    };
    confirm_subscriber(repo, id);
    Response { status: 200, location: None, flash: None }
}

/// Marks this subscriber confirmed; already-confirmed is a no-op success.
pub fn confirm_subscriber(repo: &mut SubscriberRepository, subscriber_id: u128)
    requires
        old(repo).wf(),
    ensures
        final(repo).wf(),
        final(repo).subscriber_rows() == spec_mark_confirmed(
            old(repo).subscriber_rows(),
            subscriber_id,
        ),
        final(repo).token_rows() == old(repo).token_rows(),
{
    repo.mark_confirmed(subscriber_id);
}

/// Resolves a token to the subscriber it references, if the token exists.
pub fn get_subscriber_id_from_token(
    repo: &SubscriberRepository,
    subscription_token: &str,
) -> (r: Option<u128>)
    ensures
        r matches Some(id) ==> repo.token_maps_to(subscription_token@, id),
        r is None <==> !repo.has_token(subscription_token@),
{
    repo.find_subscriber_id_by_token(subscription_token)
}

} // verus!
