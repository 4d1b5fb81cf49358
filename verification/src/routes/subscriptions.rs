//! Subscription admission: validate untrusted form input, persist the new
//! subscriber together with its single-use confirmation token in one
//! transaction, and only then describe the confirmation email to dispatch.
//!
//! The caller sends the email after this returns: the external party is
//! never told of state that was not durably persisted, and a failed send
//! leaves the subscriber legitimately pending.

use crate::clock::now_millis;
use crate::domain::NewSubscriber;
use crate::domain::subscriber_email::is_valid_email;
use crate::domain::subscriber_name::is_valid_name;
use crate::entropy::fresh_u128;
use crate::repository::SubscriberRepository;
use crate::repository::SubscriberStatus;
use crate::token::generate_subscription_token;
use crate::token::is_valid_token;
use crate::utils::Response;
use vstd::prelude::*;
use vstd::string::StringExecFns;

verus! {

/// The raw, untrusted subscription form.
pub struct FormData {
    pub email: String,
    pub name: String,
}

/// Why a subscription was refused: bad caller input (400-equivalent), or a
/// downstream failure (500-equivalent) whose cause is kept for the log.
#[derive(Debug)]
pub enum SubscribeError {
    ValidationError(String),
    UnexpectedError(String),
}

impl SubscribeError {
    /// The status code this error maps to at the boundary.
    pub fn status(&self) -> (r: u16)
        ensures
            self is ValidationError ==> r == 400,
            self is UnexpectedError ==> r == 500,
    {
        match self {
            SubscribeError::ValidationError(_) => 400,
            SubscribeError::UnexpectedError(_) => 500,
        }
    }
}

/// One outbound email, ready for the sender collaborator.
pub struct EmailMessage {
    pub recipient: String,
    pub subject: String,
    pub html_body: String,
    pub text_body: String,
}

/// The confirmation link embedding the token.
pub open spec fn confirmation_link(base_url: Seq<char>, token: Seq<char>) -> Seq<char> {
    base_url + "/subscriptions/confirm?subscription_token="@ + token
}

/// The plain-text body around a confirmation link.
pub open spec fn text_body_of(link: Seq<char>) -> Seq<char> {
    "Welcome to our newsletter!\nVisit "@ + link + " to confirm your subscription."@
}

/// The HTML body around a confirmation link.
pub open spec fn html_body_of(link: Seq<char>) -> Seq<char> {
    "Welcome to our newsletter!<br />Click <a href=\""@ + link
        + "\">here</a> to confirm your subscription."@
}

/// Builds the confirmation link for a token.
pub fn build_confirmation_link(base_url: &str, token: &str) -> (r: String)
    ensures
        r@ == confirmation_link(base_url@, token@),
{
    let mut link = String::from_str(base_url);
    link.append("/subscriptions/confirm?subscription_token=");
    link.append(token);
    link
}

/// Builds the confirmation email: both bodies carry exactly one confirmation
/// link, the one embedding `token`.
pub fn build_confirmation_email(recipient: String, base_url: &str, token: &str) -> (r:
    EmailMessage)
    ensures
        r.recipient == recipient,
        r.subject@ == "Welcome!"@,
        r.html_body@ == html_body_of(confirmation_link(base_url@, token@)),
        r.text_body@ == text_body_of(confirmation_link(base_url@, token@)),
{
    let link = build_confirmation_link(base_url, token);
    let mut text_body = String::from_str("Welcome to our newsletter!\nVisit ");
    text_body.append(link.as_str());
    text_body.append(" to confirm your subscription.");
    let mut html_body = String::from_str("Welcome to our newsletter!<br />Click <a href=\"");
    html_body.append(link.as_str());
    html_body.append("\">here</a> to confirm your subscription.");
    EmailMessage { recipient, subject: String::from_str("Welcome!"), html_body, text_body }
}

/// Admits one subscription: validates the form, then — in one transaction —
/// persists the subscriber as pending together with a fresh token, and
/// returns the confirmation email for the caller to send.
///
/// Invalid input is exactly the `ValidationError` case, and on any error the
/// repository is exactly as it was (nothing half-written). On success the
/// repository grew by exactly one subscriber row, pending, and one token row
/// referencing it; the email addresses the subscriber and embeds that token.
/// `UnexpectedError` is possible only for valid input: the token or
/// identifier draw collided with persisted state.
pub fn subscribe(form: FormData, repo: &mut SubscriberRepository, base_url: &str) -> (r: Result<
    EmailMessage,
    SubscribeError,
>)
    requires
        old(repo).wf(),
    ensures
        final(repo).wf(),
        (r matches Err(e) && e is ValidationError) <==> !(is_valid_email(form.email@)
            && is_valid_name(form.name@)),
        r is Err ==> *final(repo) == *old(repo),
        r matches Ok(email) ==> ({
            let subs = final(repo).subscriber_rows();
            let toks = final(repo).token_rows();
            &&& subs.len() == old(repo).subscriber_rows().len() + 1
            &&& toks.len() == old(repo).token_rows().len() + 1
            &&& subs.drop_last() == old(repo).subscriber_rows()
            &&& toks.drop_last() == old(repo).token_rows()
            &&& subs.last().email@ == form.email@
            &&& subs.last().name@ == form.name@
            &&& subs.last().status == SubscriberStatus::PendingConfirmation
            &&& toks.last().subscriber_id == subs.last().id
            &&& is_valid_token(toks.last().token@)
            &&& !old(repo).has_subscriber_id(subs.last().id)
            &&& !old(repo).has_token(toks.last().token@)
            &&& email.recipient@ == form.email@
            &&& email.subject@ == "Welcome!"@
            &&& email.html_body@ == html_body_of(
                confirmation_link(base_url@, toks.last().token@),
            )
            &&& email.text_body@ == text_body_of(
                confirmation_link(base_url@, toks.last().token@),
            )
        }),
{
    let new_subscriber = match NewSubscriber::try_from(form) {
        Ok(n) => n,
        Err(e) => {
            return Err(SubscribeError::ValidationError(e));
        },
    };
    let token = match generate_subscription_token() {
        Some(t) => t,
        None => {
            return Err(
                SubscribeError::UnexpectedError(
                    String::from_str("the randomness source yielded no token"),
                ),
            );
        },
    };
    let id = fresh_u128();
    let subscribed_at = now_millis();
    let email_address = new_subscriber.email.into_string();
    let name = new_subscriber.name.into_string();
    let recipient = email_address.clone();
    let token_text = token.clone();
    match repo.insert_subscriber_with_token(id, email_address, name, subscribed_at, token) {
        Ok(()) => {
            proof {
                assert(repo.subscriber_rows().drop_last() =~= old(repo).subscriber_rows());
                assert(repo.token_rows().drop_last() =~= old(repo).token_rows());
            }
            Ok(build_confirmation_email(recipient, base_url, token_text.as_str()))
        },
        Err(()) => {
            Err(
                SubscribeError::UnexpectedError(
                    String::from_str("a fresh identifier or token was already taken"),
                ),
            )
        },
    }
}

/// After the transaction committed, the caller attempts the send; its
/// outcome decides the final status. A failed send is surfaced as an
/// internal failure, but the pending subscriber legitimately remains.
pub fn email_dispatch_response(sent: bool) -> (r: Response)
    ensures
        sent ==> r.status == 200,
        !sent ==> r.status == 500,
{
    if sent {
        Response { status: 200, location: None, flash: None }
    } else {
        Response { status: 500, location: None, flash: None }
    }
}

} // verus!
