//! Submission handler: the decisions made for one incoming question, in
//! order — sanitize, validate length, persist, build the notification — and
//! the mapping from each outcome to the response the client sees. All I/O
//! (request extraction, the real database write, the HTTP delivery) stays
//! outside; it hands this module plain values and takes plain values back.

use vstd::prelude::*;

use crate::discord::{
    build_webhook_payload, mention_of, sender_label_of, DiscordWebhookPayload, EMBED_COLOR,
};
use crate::sanitize::{sanitize_content, sanitized_of};
use crate::store::{submitted_record, QuestionStore, RecordModel};

verus! {

/// The body of a submission request.
pub struct QuestionPayload {
    pub content: String,
}

/// The configuration the submission path consumes: the inclusive length
/// bounds on sanitized content, the per-record TTL in seconds, and the
/// identity the notification speaks as and to.
pub struct AskConfig {
    pub min_length: usize,
    pub max_length: usize,
    pub ttl: i64,
    pub owner_name: String,
    pub user_id: usize,
}

/// Whether a sanitized content length lies within the configured bounds,
/// both ends inclusive.
pub open spec fn valid_length(content: Seq<char>, min_length: int, max_length: int) -> bool {
    min_length <= content.len() <= max_length
}

/// What one submission leaves in the store: the records unchanged when the
/// sanitized content fails the length bounds, and exactly one appended
/// record otherwise.
pub open spec fn submission_stores(
    before: Seq<RecordModel>,
    raw: Seq<char>,
    source_identifier: Seq<char>,
    client_descriptor: Seq<char>,
    min_length: int,
    max_length: int,
    now: int,
    ttl: int,
) -> Seq<RecordModel> {
    if valid_length(sanitized_of(raw), min_length, max_length) {
        before.push(
            submitted_record(sanitized_of(raw), source_identifier, client_descriptor, now, ttl),
        )
    } else {
        before
    }
}

/// How far one submission got before its delivery attempt: rejected with
/// nothing written, or stored, carrying the one notification payload that
/// remains to be delivered.
pub enum AskStep {
    Rejected,
    Stored { payload: DiscordWebhookPayload },
}

/// Processes one submission up to the delivery attempt: sanitizes the raw
/// content, validates its length against the inclusive bounds, and on
/// success appends exactly one record with expiry `now + ttl` and builds the
/// one notification payload to deliver. On rejection the store is untouched
/// and nothing is to be delivered.
pub fn add_ask(
    store: &mut QuestionStore,
    payload: &QuestionPayload,
    source_identifier: &str,
    client_descriptor: &str,
    config: &AskConfig,
    now: i64,
    timestamp: &str,
) -> (step: AskStep)
    requires
        0 <= config.ttl,
        now + config.ttl <= i64::MAX,
    ensures
        final(store).model() == submission_stores(
            old(store).model(),
            payload.content@,
            source_identifier@,
            client_descriptor@,
            config.min_length as int,
            config.max_length as int,
            now as int,
            config.ttl as int,
        ),
        final(store).swept_bound() == old(store).swept_bound(),
        old(store).wf() && now + config.ttl >= old(store).swept_bound() ==> final(store).wf(),
        (step matches AskStep::Rejected) <==> !valid_length(
            sanitized_of(payload.content@),
            config.min_length as int,
            config.max_length as int,
        ),
        step matches AskStep::Stored { payload: p } ==> {
            &&& p.username@ == sender_label_of(config.owner_name@)
            &&& p.content@ == mention_of(config.user_id as int)
            &&& p.embeds@.len() == 1
            &&& p.embeds@[0].title@ == "New Question"@
            &&& p.embeds@[0].description@ == sanitized_of(payload.content@)
            &&& p.embeds@[0].color == EMBED_COLOR
            &&& p.embeds@[0].timestamp@ == timestamp@
        },
{
    let content = sanitize_content(payload.content.as_str());
    let len = content.unicode_len();
    if len < config.min_length || len > config.max_length {
        return AskStep::Rejected;
    }
    let stored_content = content.clone();
    store.insert(
        stored_content,
        String::from_str(source_identifier),
        String::from_str(client_descriptor),
        now,
        config.ttl,
    );
    let webhook = build_webhook_payload(
        config.owner_name.as_str(),
        config.user_id,
        content.as_str(),
        timestamp,
    );
    AskStep::Stored { payload: webhook }
}

/// Sanitizes one submission and validates its length: the sanitized content
/// when its length lies within the inclusive bounds, nothing when it does
/// not. This is the whole decision the submission path makes before the
/// storage write.
pub fn prepare_ask(payload: &QuestionPayload, min_length: usize, max_length: usize) -> (r: Option<
    String,
>)
    ensures
        (r is Some) <==> valid_length(
            sanitized_of(payload.content@),
            min_length as int,
            max_length as int,
        ),
        r matches Some(content) ==> content@ == sanitized_of(payload.content@),
{
    let content = sanitize_content(payload.content.as_str());
    let len = content.unicode_len();
    if len < min_length || len > max_length {
        None
    } else {
        Some(content)
    }
}

/// How one submission ended, as the error taxonomy has it: accepted, or
/// rejected for its length, or failed in the storage write, or stored but
/// not delivered.
pub enum SubmissionOutcome {
    Accepted,
    InvalidLength,
    StorageFailure,
    DeliveryFailure,
}

/// The HTTP status each outcome maps to.
pub open spec fn spec_status_code(outcome: SubmissionOutcome) -> u16 {
    match outcome {
        SubmissionOutcome::Accepted => 201,
        SubmissionOutcome::InvalidLength => 400,
        SubmissionOutcome::StorageFailure => 500,
        SubmissionOutcome::DeliveryFailure => 500,
    }
}

/// The outcome of a submission that reached `step`, given whether the single
/// delivery attempt (made only when a record was stored) succeeded.
pub open spec fn outcome_model(stored: bool, delivered: bool) -> SubmissionOutcome {
    if !stored {
        SubmissionOutcome::InvalidLength
    } else if delivered {
        SubmissionOutcome::Accepted
    } else {
        SubmissionOutcome::DeliveryFailure
    }
}

impl SubmissionOutcome {
    /// The HTTP status code the client sees for this outcome.
    pub fn status_code(&self) -> (code: u16)
        ensures
            code == spec_status_code(*self),
    {
        match self {
            SubmissionOutcome::Accepted => 201,
            SubmissionOutcome::InvalidLength => 400,
            SubmissionOutcome::StorageFailure => 500,
            SubmissionOutcome::DeliveryFailure => 500,
        }
    }
}

/// Classifies a finished submission: rejected steps are client errors; a
/// stored record whose one delivery attempt succeeded is accepted, and one
/// whose delivery failed is an internal error — the record itself stays.
pub fn submission_outcome(step: &AskStep, delivered: bool) -> (outcome: SubmissionOutcome)
    ensures
        outcome == outcome_model(!(step matches AskStep::Rejected), delivered),
{
    match step {
        AskStep::Rejected => SubmissionOutcome::InvalidLength,
        AskStep::Stored { .. } => {
            if delivered {
                SubmissionOutcome::Accepted
            } else {
                SubmissionOutcome::DeliveryFailure
            }
        },
    }
}

/// The absolute expiry of a record inserted at `now` with TTL `ttl`, or
/// `None` where it cannot be represented.
pub fn expire_time(now: i64, ttl: i64) -> (r: Option<i64>)
    requires
        0 <= ttl,
    ensures
        r matches Some(e) ==> e == now + ttl,
        (r matches Some(e)) <==> now + ttl <= i64::MAX,
{
    if now <= i64::MAX - ttl {
        Some(now + ttl)
    } else {
        None
    }
}

/// A submission whose sanitized content length lies within the bounds
/// stores exactly one record — the sanitized content with the submitter's
/// identifying data and expiry `now + ttl` — appended after the existing
/// records, which stay as they were.
pub proof fn lemma_valid_submission_stores_one(
    before: Seq<RecordModel>,
    raw: Seq<char>,
    source_identifier: Seq<char>,
    client_descriptor: Seq<char>,
    min_length: int,
    max_length: int,
    now: int,
    ttl: int,
)
    requires
        valid_length(sanitized_of(raw), min_length, max_length),
    ensures
        submission_stores(
            before,
            raw,
            source_identifier,
            client_descriptor,
            min_length,
            max_length,
            now,
            ttl,
        ) == before.push(
            submitted_record(sanitized_of(raw), source_identifier, client_descriptor, now, ttl),
        ),
        submission_stores(
            before,
            raw,
            source_identifier,
            client_descriptor,
            min_length,
            max_length,
            now,
            ttl,
        ).len() == before.len() + 1,
{
}

/// A submission whose sanitized content length falls outside the bounds
/// stores nothing: the records are exactly what they were, and (it being
/// rejected) no delivery is attempted for it.
pub proof fn lemma_invalid_submission_stores_nothing(
    before: Seq<RecordModel>,
    raw: Seq<char>,
    source_identifier: Seq<char>,
    client_descriptor: Seq<char>,
    min_length: int,
    max_length: int,
    now: int,
    ttl: int,
)
    requires
        !valid_length(sanitized_of(raw), min_length, max_length),
    ensures
        submission_stores(
            before,
            raw,
            source_identifier,
            client_descriptor,
            min_length,
            max_length,
            now,
            ttl,
        ) == before,
{
}

/// The response codes of the pipeline: a rejected submission answers 400
/// whatever would have been delivered; a stored and delivered one answers
/// 201; a stored but undelivered one answers 500.
pub proof fn lemma_submission_codes(delivered: bool)
    ensures
        spec_status_code(outcome_model(false, delivered)) == 400,
        spec_status_code(outcome_model(true, true)) == 201,
        spec_status_code(outcome_model(true, false)) == 500,
{
}

} // verus!
