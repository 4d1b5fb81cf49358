//! The admission flow end to end: the captured email, the embedded token,
//! the full confirmation round trip, and the independence of two
//! subscriptions.

use zero2prod::repository::SubscriberRepository;
use zero2prod::repository::SubscriberStatus;
use zero2prod::routes::subscriptions::EmailMessage;
use zero2prod::routes::subscriptions::FormData;
use zero2prod::routes::subscriptions::email_dispatch_response;
use zero2prod::routes::subscriptions::subscribe;
use zero2prod::routes::subscriptions_confirm::Parameters;
use zero2prod::routes::subscriptions_confirm::confirm;
use zero2prod::token::generate_subscription_token;

const BASE_URL: &str = "https://newsletter.example.com";

fn form() -> FormData {
    FormData {
        email: "ursula_le_guin@gmail.com".to_string(),
        name: "le guin".to_string(),
    }
}

fn extract_token(email: &EmailMessage) -> String {
    let marker = "subscription_token=";
    let start = email
        .text_body
        .find(marker)
        .expect("the text body carries no confirmation link")
        + marker.len();
    let token: String = email.text_body[start..].chars().take(25).collect();
    assert_eq!(
        email.html_body.matches(marker).count(),
        1,
        "the HTML body must carry exactly one confirmation link"
    );
    assert_eq!(email.text_body.matches(marker).count(), 1);
    token
}

#[test]
fn subscribing_captures_one_email_with_one_confirmation_link() {
    let mut repo = SubscriberRepository::new();

    let email = subscribe(form(), &mut repo, BASE_URL).expect("admission failed");

    assert_eq!(email.recipient, "ursula_le_guin@gmail.com");
    assert_eq!(email.subject, "Welcome!");
    let token = extract_token(&email);
    let link = format!(
        "{}/subscriptions/confirm?subscription_token={}",
        BASE_URL, token
    );
    assert_eq!(
        email.text_body,
        format!("Welcome to our newsletter!\nVisit {} to confirm your subscription.", link)
    );
    assert_eq!(
        email.html_body,
        format!(
            "Welcome to our newsletter!<br />Click <a href=\"{}\">here</a> to confirm your subscription.",
            link
        )
    );
}

#[test]
fn subscribe_then_confirm_round_trip() {
    let mut repo = SubscriberRepository::new();

    let email = subscribe(form(), &mut repo, BASE_URL).expect("admission failed");
    assert_eq!(repo.subscriber_count(), 1);
    let id = repo.subscriber_at(0).id;
    assert_eq!(repo.subscriber_at(0).status, SubscriberStatus::PendingConfirmation);

    let parameters = Parameters { subscription_token: extract_token(&email) };
    let response = confirm(&parameters, &mut repo);

    assert_eq!(response.status, 200);
    assert_eq!(repo.get_status(id), Some(SubscriberStatus::Confirmed));
}

#[test]
fn subscribing_with_an_empty_email_writes_nothing_and_sends_nothing() {
    let mut repo = SubscriberRepository::new();
    let form = FormData { email: "".to_string(), name: "le guin".to_string() };

    let outcome = subscribe(form, &mut repo, BASE_URL);

    let error = outcome.err().expect("an empty email must be rejected");
    assert_eq!(error.status(), 400);
    assert_eq!(repo.subscriber_count(), 0, "no row may be written");
    assert_eq!(repo.token_count(), 0, "no token may be written");
}

#[test]
fn subscribing_twice_creates_two_independent_pending_subscribers() {
    let mut repo = SubscriberRepository::new();

    let email1 = subscribe(form(), &mut repo, BASE_URL).expect("first admission failed");
    let email2 = subscribe(form(), &mut repo, BASE_URL).expect("second admission failed");

    assert_eq!(repo.subscriber_count(), 2);
    assert_eq!(repo.token_count(), 2);
    let id1 = repo.subscriber_at(0).id;
    let id2 = repo.subscriber_at(1).id;
    assert_ne!(id1, id2, "each admission assigns its own identifier");
    let token1 = extract_token(&email1);
    let token2 = extract_token(&email2);
    assert_ne!(token1, token2, "each admission issues its own token");
    assert_eq!(repo.subscriber_at(0).status, SubscriberStatus::PendingConfirmation);
    assert_eq!(repo.subscriber_at(1).status, SubscriberStatus::PendingConfirmation);

    let response = confirm(&Parameters { subscription_token: token1 }, &mut repo);
    assert_eq!(response.status, 200);
    assert_eq!(repo.get_status(id1), Some(SubscriberStatus::Confirmed));
    assert_eq!(
        repo.get_status(id2),
        Some(SubscriberStatus::PendingConfirmation),
        "confirming one subscription must not affect the other"
    );
}

#[test]
fn generated_tokens_are_25_alphanumeric_characters() {
    let token = generate_subscription_token().expect("the generator gave no token");
    assert_eq!(token.chars().count(), 25);
    assert!(token.chars().all(|c| c.is_ascii_alphanumeric()));
    let second = generate_subscription_token().expect("the generator gave no token");
    assert_ne!(token, second, "two draws almost surely differ");
}

#[test]
fn email_dispatch_outcome_decides_the_final_status() {
    assert_eq!(email_dispatch_response(true).status, 200);
    assert_eq!(email_dispatch_response(false).status, 500);
}
