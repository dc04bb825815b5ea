//! The two operations of the service: a health check, and the validation of
//! one identifier. Each comes in two forms: one for a given moment, and one
//! that reads the clock itself.

use crate::clock::{
    has_text, is_utc_timestamp, timestamp_at, timestamp_now, utc_text, ClockError,
};
use crate::pattern::{is_valid_rfc, Matcher};
use crate::text::{normalize, normalized};
use vstd::prelude::*;
use vstd::string::*;

verus! {

/// A request to validate one identifier. Any text may be asked about.
#[derive(Clone, Debug)]
pub struct ValidationRequest {
    pub rfc: String,
}

/// The answer to a validation request.
#[derive(Clone, Debug)]
pub struct ValidationResponse {
    /// The normal form of the text that was asked about, valid or not.
    pub rfc: String,
    /// Whether that normal form is a valid identifier.
    pub is_valid: bool,
    /// When the answer was made.
    pub created_at: String,
}

/// The answer to a health check.
#[derive(Clone, Debug)]
pub struct HealthResponse {
    pub status: String,
    /// When the answer was made.
    pub timestamp: String,
}

/// The status that every health check reports.
pub const STATUS_OK: &'static str = "ok";

/// Whether an answer is the one owed to a text: it carries the text's normal
/// form, says whether that form is a valid identifier, and is stamped with a
/// moment in UTC. Which moment is left open.
pub open spec fn answers(input: Seq<char>, response: ValidationResponse) -> bool {
    &&& response.rfc@ == normalized(input)
    &&& response.is_valid == is_valid_rfc(normalized(input))
    &&& is_utc_timestamp(response.created_at@)
}

/// Whether an answer is the one owed to a health check: it reports the
/// status `ok` and is stamped with a moment in UTC. Which moment is left
/// open.
pub open spec fn reports_health(response: HealthResponse) -> bool {
    &&& response.status@ == STATUS_OK@
    &&& is_utc_timestamp(response.timestamp@)
}

/// The health check with a given stamp.
fn healthy(timestamp: String) -> (response: HealthResponse)
    ensures
        response.status@ == STATUS_OK@,
        response.timestamp == timestamp,
{
    HealthResponse { status: String::from_str(STATUS_OK), timestamp }
}

/// The health check at a given moment. It fails only where the moment has
/// no text.
pub fn health_at(secs: u64, nanos: u32) -> (outcome: Result<HealthResponse, ClockError>)
    ensures
        has_text(secs, nanos) ==> (outcome matches Ok(response) && reports_health(response)
            && response.timestamp@ == utc_text(secs as int, nanos as int)),
        !has_text(secs, nanos) ==> outcome matches Err(ClockError::OutOfRange),
{
    match timestamp_at(secs, nanos) {
        Ok(timestamp) => Ok(healthy(timestamp)),
        Err(refusal) => Err(refusal),
    }
}

/// The health check now. It fails only where the clock gives no moment that
/// has a text.
pub fn health() -> (outcome: Result<HealthResponse, ClockError>)
    ensures
        outcome matches Ok(response) ==> reports_health(response),
{
    match timestamp_now() {
        Ok(timestamp) => Ok(healthy(timestamp)),
        Err(refusal) => Err(refusal),
    }
}

/// The answer to a request with a given stamp.
fn answer(matcher: &Matcher, request: &ValidationRequest, timestamp: String) -> (response:
    ValidationResponse)
    ensures
        response.rfc@ == normalized(request.rfc@),
        response.is_valid == is_valid_rfc(normalized(request.rfc@)),
        response.created_at == timestamp,
{
    let rfc = normalize(request.rfc.as_str());
    let is_valid = matcher.is_match(rfc.as_str());
    ValidationResponse { rfc, is_valid, created_at: timestamp }
}

/// Validates one identifier at a given moment. A text that is no valid
/// identifier is answered like any other: the call fails only where the
/// moment has no text.
pub fn validate_at(matcher: &Matcher, request: &ValidationRequest, secs: u64, nanos: u32) -> (outcome:
    Result<ValidationResponse, ClockError>)
    ensures
        has_text(secs, nanos) ==> (outcome matches Ok(response) && answers(
            request.rfc@,
            response,
        ) && response.created_at@ == utc_text(secs as int, nanos as int)),
        !has_text(secs, nanos) ==> outcome matches Err(ClockError::OutOfRange),
{
    match timestamp_at(secs, nanos) {
        Ok(timestamp) => Ok(answer(matcher, request, timestamp)),
        Err(refusal) => Err(refusal),
    }
}

/// Validates one identifier now. A text that is no valid identifier is
/// answered like any other: the call fails only where the clock gives no
/// moment that has a text.
pub fn validate(matcher: &Matcher, request: &ValidationRequest) -> (outcome: Result<
    ValidationResponse,
    ClockError,
>)
    ensures
        outcome matches Ok(response) ==> answers(request.rfc@, response),
{
    match timestamp_now() {
        Ok(timestamp) => Ok(answer(matcher, request, timestamp)),
        Err(refusal) => Err(refusal),
    }
}

/// Answers to the same text agree in the normal form and in the verdict,
/// whenever and by whomever they were made.
pub proof fn lemma_answers_agree(
    input: Seq<char>,
    first: ValidationResponse,
    second: ValidationResponse,
)
    requires
        answers(input, first),
        answers(input, second),
    ensures
        first.rfc@ == second.rfc@,
        first.is_valid == second.is_valid,
{
}

/// Answers to health checks agree in the status, whenever they were made.
pub proof fn lemma_health_agrees(first: HealthResponse, second: HealthResponse)
    requires
        reports_health(first),
        reports_health(second),
    ensures
        first.status@ == second.status@,
{
}

} // verus!
