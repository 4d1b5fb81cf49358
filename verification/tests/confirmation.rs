//! Token-gated confirmation: unknown tokens are always 401, and confirming
//! twice is the same as confirming once.

use zero2prod::repository::SubscriberRepository;
use zero2prod::repository::SubscriberStatus;
use zero2prod::routes::subscriptions::FormData;
use zero2prod::routes::subscriptions::subscribe;
use zero2prod::routes::subscriptions_confirm::Parameters;
use zero2prod::routes::subscriptions_confirm::confirm;
use zero2prod::routes::subscriptions_confirm::get_subscriber_id_from_token;

const BASE_URL: &str = "https://newsletter.example.com";

fn subscribe_once(repo: &mut SubscriberRepository) -> String {
    let form = FormData {
        email: "ursula_le_guin@gmail.com".to_string(),
        name: "le guin".to_string(),
    };
    let email = subscribe(form, repo, BASE_URL).expect("admission failed");
    let marker = "subscription_token=";
    let start = email.text_body.find(marker).expect("no link") + marker.len();
    email.text_body[start..].chars().take(25).collect()
}

#[test]
fn confirming_an_unknown_token_is_always_unauthorized() {
    let mut repo = SubscriberRepository::new();
    let _real_token = subscribe_once(&mut repo);

    let unknown_tokens = vec![
        "".to_string(),
        "short".to_string(),
        "!!!not-alphanumeric-at-all".to_string(),
        "AAAAAAAAAAAAAAAAAAAAAAAAA".to_string(),
    ];
    for subscription_token in unknown_tokens {
        let response = confirm(&Parameters { subscription_token }, &mut repo);
        assert_eq!(response.status, 401, "an unknown token is 401, never 500");
    }
    assert_eq!(repo.subscriber_count(), 1);
    assert_eq!(
        repo.subscriber_at(0).status,
        SubscriberStatus::PendingConfirmation,
        "failed confirmations must change nothing"
    );
}

#[test]
fn confirming_twice_changes_nothing_more() {
    let mut repo = SubscriberRepository::new();
    let token = subscribe_once(&mut repo);
    let id = repo.subscriber_at(0).id;

    let first = confirm(&Parameters { subscription_token: token.clone() }, &mut repo);
    assert_eq!(first.status, 200);
    assert_eq!(repo.get_status(id), Some(SubscriberStatus::Confirmed));

    let second = confirm(&Parameters { subscription_token: token }, &mut repo);
    assert_eq!(second.status, 200, "replaying a confirmation still succeeds");
    assert_eq!(repo.get_status(id), Some(SubscriberStatus::Confirmed));
    assert_eq!(repo.subscriber_count(), 1);
    assert_eq!(repo.token_count(), 1);
}

#[test]
fn a_token_resolves_to_its_own_subscriber() {
    let mut repo = SubscriberRepository::new();
    let token = subscribe_once(&mut repo);
    let id = repo.subscriber_at(0).id;

    assert_eq!(get_subscriber_id_from_token(&repo, &token), Some(id));
    assert_eq!(get_subscriber_id_from_token(&repo, "AAAAAAAAAAAAAAAAAAAAAAAAA"), None);
}
