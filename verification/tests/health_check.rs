//! The three route-level checks, driven against the decision core directly:
//! the liveness probe, a well-formed subscription, and the rejections for
//! missing form data.

use zero2prod::repository::SubscriberRepository;
use zero2prod::repository::SubscriberStatus;
use zero2prod::routes::subscriptions::FormData;
use zero2prod::routes::subscriptions::SubscribeError;
use zero2prod::routes::subscriptions::subscribe;
use zero2prod::routes::health_check::health_check;

const BASE_URL: &str = "http://127.0.0.1";

#[test]
fn health_check_works() {
    let response = health_check();
    assert_eq!(response.status, 200);
    assert!(response.location.is_none());
    assert!(response.flash.is_none());
}

#[test]
fn subscribe_returns_a_200_for_valid_form_data() {
    let mut repo = SubscriberRepository::new();
    let form = FormData {
        email: "ursula_le_guin@gmail.com".to_string(),
        name: "le guin".to_string(),
    };

    let outcome = subscribe(form, &mut repo, BASE_URL);

    assert!(outcome.is_ok());
    assert_eq!(repo.subscriber_count(), 1);
    let saved = repo.subscriber_at(0);
    assert_eq!(saved.email, "ursula_le_guin@gmail.com");
    assert_eq!(saved.name, "le guin");
    assert_eq!(saved.status, SubscriberStatus::PendingConfirmation);
}

#[test]
fn subscribe_returns_a_400_when_data_is_missing() {
    let cases = vec![
        ("".to_string(), "le guin".to_string(), "missing the email"),
        ("ursula_le_guin@gmail.com".to_string(), "".to_string(), "missing the name"),
        ("".to_string(), "".to_string(), "missing both name and email"),
    ];

    for (email, name, description) in cases {
        let mut repo = SubscriberRepository::new();
        let form = FormData { email, name };

        let outcome = subscribe(form, &mut repo, BASE_URL);

        let error = match outcome {
            Err(error) => error,
            Ok(_) => panic!(
                "The admission did not fail with 400 Bad Request when the payload was {}.",
                description
            ),
        };
        assert_eq!(error.status(), 400);
        assert!(matches!(error, SubscribeError::ValidationError(_)));
        assert_eq!(repo.subscriber_count(), 0);
    }
}
