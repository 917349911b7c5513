use fragekasten::ask::{
    add_ask, expire_time, prepare_ask, submission_outcome, AskConfig, AskStep, QuestionPayload,
    SubmissionOutcome,
};
use fragekasten::discord::{build_webhook_payload, is_success_status, u64_to_decimal};
use fragekasten::store::QuestionStore;

fn config(min_length: usize, max_length: usize) -> AskConfig {
    AskConfig {
        min_length,
        max_length,
        ttl: 3600,
        owner_name: "alice".to_string(),
        user_id: 42,
    }
}

fn submit(store: &mut QuestionStore, content: &str, cfg: &AskConfig) -> AskStep {
    let payload = QuestionPayload { content: content.to_string() };
    add_ask(
        store,
        &payload,
        "203.0.113.7",
        "agent/1.0",
        cfg,
        1_700_000_000,
        "2023-11-14T22:13:20+00:00",
    )
}

#[test]
fn valid_submission_is_stored_and_accepted_when_delivered() {
    let mut store = QuestionStore::new();
    let cfg = config(15, 300);
    let step = submit(&mut store, "   Hello there, how are you?   ", &cfg);

    assert_eq!(store.len(), 1);
    let record = store.record_at(0);
    assert_eq!(record.content, "Hello there, how are you?");
    assert_eq!(record.created_at, 1_700_000_000);
    assert_eq!(record.expire_after, 1_700_003_600);

    let payload = match step {
        AskStep::Stored { payload } => payload,
        AskStep::Rejected => panic!("valid submission was rejected"),
    };
    assert_eq!(payload.username, "alice's Fragekasten");
    assert_eq!(payload.content, "<@42>");
    assert_eq!(payload.embeds.len(), 1);
    assert_eq!(payload.embeds[0].title, "New Question");
    assert_eq!(payload.embeds[0].description, "Hello there, how are you?");
    assert_eq!(payload.embeds[0].color, 3447003);
    assert_eq!(payload.embeds[0].timestamp, "2023-11-14T22:13:20+00:00");

    let outcome = submission_outcome(&AskStep::Stored { payload }, true);
    assert_eq!(outcome.status_code(), 201);
}

#[test]
fn too_short_submission_is_rejected_with_400_and_nothing_stored() {
    let mut store = QuestionStore::new();
    let cfg = config(15, 300);
    let step = submit(&mut store, "hi", &cfg);

    assert!(matches!(step, AskStep::Rejected));
    assert_eq!(store.len(), 0);
    let outcome = submission_outcome(&step, true);
    assert_eq!(outcome.status_code(), 400);
}

#[test]
fn too_long_submission_is_rejected_and_nothing_stored() {
    let mut store = QuestionStore::new();
    let cfg = config(2, 5);
    let step = submit(&mut store, "much too long", &cfg);
    assert!(matches!(step, AskStep::Rejected));
    assert_eq!(store.len(), 0);
}

#[test]
fn length_bounds_are_inclusive() {
    let mut store = QuestionStore::new();
    let cfg = config(2, 5);
    assert!(matches!(submit(&mut store, "ab", &cfg), AskStep::Stored { .. }));
    assert!(matches!(submit(&mut store, "abcde", &cfg), AskStep::Stored { .. }));
    assert!(matches!(submit(&mut store, "a", &cfg), AskStep::Rejected));
    assert!(matches!(submit(&mut store, "abcdef", &cfg), AskStep::Rejected));
    assert_eq!(store.len(), 2);
}

#[test]
fn length_is_checked_after_sanitizing() {
    let mut store = QuestionStore::new();
    let cfg = config(2, 5);
    // 12 raw characters, but only 5 survive sanitization.
    let step = submit(&mut store, "**a** _bcd_ ", &cfg);
    assert!(matches!(step, AskStep::Stored { .. }));
    assert_eq!(store.record_at(0).content, "a bcd");
}

#[test]
fn failed_delivery_yields_500_and_record_stays() {
    let mut store = QuestionStore::new();
    let cfg = config(15, 300);
    let step = submit(&mut store, "Hello there, how are you?", &cfg);
    assert!(matches!(step, AskStep::Stored { .. }));

    // The notification endpoint answered HTTP 500.
    let delivered = is_success_status(500);
    assert!(!delivered);
    let outcome = submission_outcome(&step, delivered);
    assert_eq!(outcome.status_code(), 500);
    assert_eq!(store.len(), 1);
    assert_eq!(store.record_at(0).content, "Hello there, how are you?");
}

#[test]
fn success_statuses_are_the_2xx_range() {
    assert!(is_success_status(200));
    assert!(is_success_status(201));
    assert!(is_success_status(299));
    assert!(!is_success_status(199));
    assert!(!is_success_status(300));
    assert!(!is_success_status(404));
    assert!(!is_success_status(500));
}

#[test]
fn storage_failure_maps_to_500() {
    assert_eq!(SubmissionOutcome::StorageFailure.status_code(), 500);
    assert_eq!(SubmissionOutcome::DeliveryFailure.status_code(), 500);
    assert_eq!(SubmissionOutcome::InvalidLength.status_code(), 400);
    assert_eq!(SubmissionOutcome::Accepted.status_code(), 201);
}

#[test]
fn decimal_formatting_is_exact() {
    assert_eq!(u64_to_decimal(0), "0");
    assert_eq!(u64_to_decimal(7), "7");
    assert_eq!(u64_to_decimal(42), "42");
    assert_eq!(u64_to_decimal(1000), "1000");
    assert_eq!(u64_to_decimal(18446744073709551615), "18446744073709551615");
}

#[test]
fn webhook_payload_fields_are_exact() {
    let p = build_webhook_payload("bob", 1234567890, "a question", "2024-01-01T00:00:00+00:00");
    assert_eq!(p.username, "bob's Fragekasten");
    assert_eq!(p.content, "<@1234567890>");
    assert_eq!(p.embeds.len(), 1);
    assert_eq!(p.embeds[0].description, "a question");
}

#[test]
fn prepare_ask_returns_sanitized_content_when_valid() {
    let payload = QuestionPayload { content: "   **Hello** there   ".to_string() };
    assert_eq!(prepare_ask(&payload, 2, 100), Some("Hello there".to_string()));
}

#[test]
fn prepare_ask_rejects_out_of_bounds_content() {
    let payload = QuestionPayload { content: "hi".to_string() };
    assert_eq!(prepare_ask(&payload, 15, 300), None);
    let payload = QuestionPayload { content: "a much longer question".to_string() };
    assert_eq!(prepare_ask(&payload, 1, 5), None);
}

#[test]
fn expire_time_adds_ttl_and_reports_overflow() {
    assert_eq!(expire_time(100, 50), Some(150));
    assert_eq!(expire_time(i64::MAX - 10, 10), Some(i64::MAX));
    assert_eq!(expire_time(i64::MAX - 9, 10), None);
}
