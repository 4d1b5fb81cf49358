//! The pair of validated fields a subscription needs.

use crate::domain::subscriber_email::SubscriberEmail;
use crate::domain::subscriber_email::is_valid_email;
use crate::domain::subscriber_name::SubscriberName;
use crate::domain::subscriber_name::is_valid_name;
use crate::routes::subscriptions::FormData;
use vstd::prelude::*;

verus! {

/// A subscription request whose fields both passed validation.
pub struct NewSubscriber {
    pub email: SubscriberEmail,
    pub name: SubscriberName,
}

impl NewSubscriber {
    /// Admits the raw form exactly when both fields are valid; the email is
    /// checked first, as its message is the one reported on a double failure.
    pub fn try_from(value: FormData) -> (r: Result<NewSubscriber, String>)
        ensures
            r matches Ok(n) ==> n.email@ == value.email@ && n.name@ == value.name@
                && is_valid_email(value.email@) && is_valid_name(value.name@),
            r is Err <==> !(is_valid_email(value.email@) && is_valid_name(value.name@)),
    {
        let email = match SubscriberEmail::parse(value.email) {
            Ok(email) => email,
            Err(e) => {
                return Err(e);
            },
        };
        let name = match SubscriberName::parse(value.name) {
            Ok(name) => name,
            Err(e) => {
                return Err(e);
            },
        };
        Ok(NewSubscriber { email, name })
    }
}

} // verus!
