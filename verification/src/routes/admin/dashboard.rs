//! The dashboard's decision core: resolve the authenticated identity to its
//! username, the one datum the page displays.

use crate::authentication::UserId;
use crate::authentication::UserStore;
use crate::utils::Response;
use crate::utils::error500;
use vstd::prelude::*;

verus! {

/// The username of the account with this id, if the account exists.
pub fn get_username(user_id: u128, users: &UserStore) -> (r: Option<String>)
    requires
        users.wf(),
    ensures
        r matches Some(name) ==> exists|i: int|
            0 <= i < users.user_rows().len() && (#[trigger] users.user_rows()[i]).user_id
                == user_id && users.user_rows()[i].username@ == name@,
        r is None <==> !users.has_user_id(user_id),
{
    users.username_of(user_id)
}

/// The dashboard for an authenticated identity: the username to render, or —
/// should the account have vanished under a live session — the generic
/// internal failure.
pub fn admin_dashboard(user_id: &UserId, users: &UserStore) -> (r: Result<String, Response>)
    requires
        users.wf(),
    ensures
        r matches Ok(name) ==> exists|i: int|
            0 <= i < users.user_rows().len() && (#[trigger] users.user_rows()[i]).user_id == user_id@
                && users.user_rows()[i].username@ == name@,
        r is Err <==> !users.has_user_id(user_id@),
        r matches Err(resp) ==> resp.status == 500,
{
    match get_username(user_id.get(), users) {
        Some(name) => Ok(name),
        None => Err(error500()),
    }
}

} // verus!
