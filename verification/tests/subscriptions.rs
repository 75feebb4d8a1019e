use zero2prod::form::Field;
use zero2prod::form::FormError;
use zero2prod::gateway::PersistenceError;
use zero2prod::routes::subscribe;
use zero2prod::routes::subscriptions::judge;
use zero2prod::routes::subscriptions::Intake;
use zero2prod::routes::subscriptions::PendingInsert;
use zero2prod::routes::subscriptions::Rejected;
use zero2prod::routes::subscriptions::Rejection;
use zero2prod::subscriber::Subscriber;
use zero2prod::validation::validate;
use zero2prod::validation::ValidationError;

fn accepted(body: &[u8]) -> PendingInsert {
    match subscribe(body) {
        Intake::Accepted(pending) => pending,
        Intake::Rejected(_) => panic!("the request was rejected"),
    }
}

fn rejected(body: &[u8]) -> Rejected {
    match subscribe(body) {
        Intake::Rejected(rejected) => rejected,
        Intake::Accepted(_) => panic!("the request was accepted"),
    }
}

fn is_version_4(id: u128) -> bool {
    let uuid = uuid::Uuid::from_u128(id);
    uuid.get_version_num() == 4 && uuid.get_variant() == uuid::Variant::RFC4122
}

#[test]
fn valid_submission_yields_one_row_with_its_fields() {
    let pending = accepted(b"email=a%40b.c&name=Ada");

    assert_eq!(pending.row.email(), "a@b.c");
    assert_eq!(pending.row.name(), "Ada");
    assert!(is_version_4(pending.row.id()));
    assert!(is_version_4(pending.request_id));
    assert_ne!(pending.row.id(), pending.request_id);
}

#[test]
fn accepted_row_is_stamped_with_the_current_time() {
    let before = chrono::Utc::now().timestamp_micros();
    let pending = accepted(b"email=a%40b.c&name=Ada");
    let after = chrono::Utc::now().timestamp_micros();

    assert!(before <= pending.row.subscribed_at());
    assert!(pending.row.subscribed_at() <= after);
}

#[test]
fn two_submissions_with_distinct_emails_yield_distinct_rows() {
    let first = accepted(b"email=first%40example.com&name=One");
    let second = accepted(b"email=second%40example.com&name=Two");

    assert_eq!(first.row.email(), "first@example.com");
    assert_eq!(second.row.email(), "second@example.com");
    assert_ne!(first.row.id(), second.row.id());
    assert_ne!(first.request_id, second.request_id);
}

#[test]
fn the_same_email_may_subscribe_twice() {
    let first = accepted(b"email=same%40example.com&name=One");
    let second = accepted(b"email=same%40example.com&name=One");

    assert_eq!(first.row.email(), second.row.email());
    assert_ne!(first.row.id(), second.row.id());
}

#[test]
fn every_request_gets_a_correlation_identifier() {
    let rejected = subscribe(b"");
    let invalid = subscribe(b"email=nobody&name=x");
    let valid = subscribe(b"email=a%40b&name=x");

    assert!(is_version_4(rejected.request_id()));
    assert!(is_version_4(invalid.request_id()));
    assert!(is_version_4(valid.request_id()));
    assert_ne!(rejected.request_id(), invalid.request_id());
    assert_ne!(invalid.request_id(), valid.request_id());
}

#[test]
fn fields_that_break_a_rule_are_rejected_with_400() {
    let cases = vec![
        ("email=a%40b&name=", ValidationError::EmptyName),
        ("email=a%40b&name=%20%09", ValidationError::EmptyName),
        ("email=a%40b&name=+", ValidationError::EmptyName),
        ("email=ab&name=x", ValidationError::MalformedEmail),
        ("email=%40b&name=x", ValidationError::MalformedEmail),
        ("email=a%40&name=x", ValidationError::MalformedEmail),
        ("email=&name=", ValidationError::EmptyName),
    ];
    for (body, expected) in cases {
        let rejected = rejected(body.as_bytes());
        let response = rejected.response();
        assert_eq!(response.status, 400, "{}", body);
        assert!(response.body.is_empty());
        match rejected.rejection {
            Rejection::Invalid { error, .. } => assert_eq!(error, expected, "{}", body),
            Rejection::Malformed(_) => panic!("{} was not rejected as invalid", body),
        }
    }
}

#[test]
fn rejection_keeps_the_submitted_fields() {
    match rejected(b"email=nobody&name=Le+Guin").rejection {
        Rejection::Invalid { form, error } => {
            assert_eq!(form.email, "nobody");
            assert_eq!(form.name, "Le Guin");
            assert_eq!(error, ValidationError::MalformedEmail);
        }
        Rejection::Malformed(_) => panic!("the request was not rejected as invalid"),
    }
}

#[test]
fn repeated_field_is_rejected_with_400() {
    let rejected = rejected(b"email=a%40b&name=x&name=y");
    assert_eq!(rejected.response().status, 400);
    assert!(matches!(
        rejected.rejection,
        Rejection::Malformed(FormError::DuplicateField(Field::Name))
    ));
}

#[test]
fn judge_refuses_what_could_not_be_decoded() {
    assert!(matches!(
        judge(None),
        Err(Rejection::Malformed(FormError::Undecodable))
    ));
}

#[test]
fn judge_reads_and_validates_the_pairs() {
    let pairs = vec![
        ("name".to_string(), "le guin".to_string()),
        ("email".to_string(), "ursula_le_guin@gmail.com".to_string()),
    ];
    let subscriber = judge(Some(pairs)).ok().expect("admitted");
    assert_eq!(subscriber.email(), "ursula_le_guin@gmail.com");
    assert_eq!(subscriber.name(), "le guin");

    let pairs = vec![("name".to_string(), "le guin".to_string())];
    assert!(matches!(
        judge(Some(pairs)),
        Err(Rejection::Malformed(FormError::MissingField(Field::Email)))
    ));

    let pairs = vec![
        ("name".to_string(), " ".to_string()),
        ("email".to_string(), "a@b".to_string()),
    ];
    assert!(matches!(
        judge(Some(pairs)),
        Err(Rejection::Invalid {
            error: ValidationError::EmptyName,
            ..
        })
    ));
}

#[test]
fn store_success_is_answered_with_200() {
    let completion = accepted(b"email=a%40b&name=x").complete(Ok(()));

    assert_eq!(completion.response.status, 200);
    assert!(completion.response.body.is_empty());
    assert_eq!(completion.response.content_length(), 0);
    assert!(completion.log.is_none());
}

#[test]
fn store_failure_is_answered_with_500_and_logged_once() {
    let pending = accepted(b"email=a%40b&name=x");
    let request_id = uuid::Uuid::from_u128(pending.request_id);
    let completion = pending.complete(Err(PersistenceError {
        detail: "PoolTimedOut".to_string(),
    }));

    assert_eq!(completion.response.status, 500);
    assert!(completion.response.body.is_empty());
    assert_eq!(
        completion.log,
        Some(format!(
            "Request ID: {} - Failed to execute query: PoolTimedOut",
            request_id
        ))
    );
}

#[test]
fn span_is_tagged_with_the_request_and_the_submission() {
    let intake = subscribe(b"email=a%40b&name=x+y");
    let span = intake.span();
    assert_eq!(
        span.request_id,
        uuid::Uuid::from_u128(intake.request_id()).to_string()
    );
    assert_eq!(span.request_email.as_deref(), Some("a@b"));
    assert_eq!(span.request_name.as_deref(), Some("x y"));

    let intake = subscribe(b"email=nobody&name=x");
    let span = intake.span();
    assert_eq!(
        span.request_id,
        uuid::Uuid::from_u128(intake.request_id()).to_string()
    );
    assert_eq!(span.request_email.as_deref(), Some("nobody"));
    assert_eq!(span.request_name.as_deref(), Some("x"));

    let intake = subscribe(b"name=x");
    let span = intake.span();
    assert_eq!(span.request_id.len(), 36);
    assert_eq!(span.request_email, None);
    assert_eq!(span.request_name, None);
}

#[test]
fn subscriber_joins_identifier_fields_and_time() {
    let subscriber = validate("a@b", "Ada").expect("valid");
    let row = Subscriber::new(0xa1a2a3a4b1b2c1c2d1d2d3d4d5d6d7d8, subscriber, 1_662_921_288_000_000);

    assert_eq!(row.id(), 0xa1a2a3a4b1b2c1c2d1d2d3d4d5d6d7d8);
    assert_eq!(row.id_text(), "a1a2a3a4-b1b2-c1c2-d1d2-d3d4d5d6d7d8");
    assert_eq!(row.email(), "a@b");
    assert_eq!(row.name(), "Ada");
    assert_eq!(row.subscribed_at(), 1_662_921_288_000_000);
}
