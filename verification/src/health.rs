//! The health probe: one GET of the sidecar's health endpoint, whose body is
//! read as JSON and handed to the caller as it is.
//!
//! The network round trip is not done here. [`begin_health_check`] says what
//! to ask for, the caller asks, and [`finish_health_check`] turns what came
//! back into the answer of the probe. The probe neither reads nor changes the
//! registry.

use vstd::prelude::*;
use vstd::string::*;
use crate::config::{
    health_url, lemma_health_url, HEALTH_TIMEOUT_SECS, MAX_BODY_BYTES, SIDECAR_PORT,
};
use crate::error::{reply_view, Failure, ProbePhase, SidecarError};
use crate::text::append_decimal;

verus! {

/// A JSON document of `serde_json`. Nothing of its inside is known here: the
/// probe only carries it from the parser to the caller.
#[verifier::external_type_specification]
#[verifier::external_body]
pub struct ExJsonValue(serde_json::Value);

/// What `serde_json` makes of a text: the document that the bytes spell, or
/// the parser's description of why they spell none.
pub uninterp spec fn parsed_json(bytes: Seq<u8>) -> Result<serde_json::Value, Seq<char>>;

/// The mathematical value of a parser's answer.
pub open spec fn parsed_view(parsed: Result<serde_json::Value, String>) -> Result<
    serde_json::Value,
    Seq<char>,
> {
    match parsed {
        Ok(document) => Ok(document),
        Err(cause) => Err(cause@),
    }
}

/// Calls `serde_json::from_slice` for a `serde_json::Value`, and on failure
/// takes the text of the `serde_json::Error` through its `Display`. The
/// contract claims no more than that the answer depends on the bytes alone;
/// it is that answer which [`parsed_json`] names. The parser counts the
/// digits of a long number in an `i32` without a guard, so a text is admitted
/// only if it is too short for that count to overflow.
#[verifier::external_body]
fn parse_json(bytes: &[u8]) -> (parsed: Result<serde_json::Value, String>)
    requires
        bytes@.len() <= i32::MAX,
    ensures
        parsed_view(parsed) == parsed_json(bytes@),
{
    match serde_json::from_slice::<serde_json::Value>(bytes) {
        Ok(document) => Ok(document),
        Err(error) => Err(error.to_string()),
    }
}

/// What the HTTP client is asked to do for a health probe: one GET of `url`
/// that is abandoned after `timeout_secs` seconds.
#[derive(Debug, PartialEq, Eq)]
pub struct HealthRequest {
    /// The address to fetch.
    pub url: String,
    /// The bound on the duration of the whole round trip, in seconds.
    pub timeout_secs: u64,
}

/// How the round trip of a probe ended.
#[derive(Debug, PartialEq, Eq)]
pub enum ProbeOutcome {
    /// The HTTP client could not be built.
    ClientFailed { cause: String },
    /// The request was not answered: the sidecar is not listening, or the
    /// time bound ran out.
    RequestFailed { cause: String },
    /// An answer began, but its body could not be read to the end.
    BodyFailed { cause: String },
    /// The body of the answer.
    Body(Vec<u8>),
}

/// The answer of a probe whose body was given to the parser: the document
/// itself, or a failure of the response phase with the parser's description.
pub open spec fn body_reply(parsed: Result<serde_json::Value, Seq<char>>) -> Result<
    serde_json::Value,
    Failure,
> {
    match parsed {
        Ok(document) => Ok(document),
        Err(cause) => Err(Failure::HealthCheckFailed { phase: ProbePhase::Response, cause }),
    }
}

/// The cause that is reported for a body of more than [`MAX_BODY_BYTES`]
/// bytes.
pub open spec fn oversized_body_cause() -> Seq<char> {
    "response body is too long to parse"@
}

/// The answer of a probe, by how its round trip ended. A body of more than
/// [`MAX_BODY_BYTES`] bytes is not given to the parser: it fails the response
/// phase with a fixed cause.
pub open spec fn health_reply(outcome: ProbeOutcome) -> Result<serde_json::Value, Failure> {
    match outcome {
        ProbeOutcome::ClientFailed { cause } => Err(
            Failure::HealthCheckFailed { phase: ProbePhase::Client, cause: cause@ },
        ),
        ProbeOutcome::RequestFailed { cause } => Err(
            Failure::HealthCheckFailed { phase: ProbePhase::Request, cause: cause@ },
        ),
        ProbeOutcome::BodyFailed { cause } => Err(
            Failure::HealthCheckFailed { phase: ProbePhase::Response, cause: cause@ },
        ),
        ProbeOutcome::Body(bytes) => if bytes@.len() <= MAX_BODY_BYTES {
            body_reply(parsed_json(bytes@))
        } else {
            Err(
                Failure::HealthCheckFailed {
                    phase: ProbePhase::Response,
                    cause: oversized_body_cause(),
                },
            )
        },
    }
}

/// First step of a health probe: says what to fetch, and within what time.
pub fn begin_health_check() -> (request: HealthRequest)
    ensures
        request.url@ == health_url(),
        request.url@ == "http://127.0.0.1:18008/api/health"@,
        request.timeout_secs == HEALTH_TIMEOUT_SECS,
        request.timeout_secs == 3,
{
    let mut url = String::from_str("http://127.0.0.1:");
    append_decimal(&mut url, SIDECAR_PORT as u64);
    url.append("/api/health");
    proof {
        lemma_health_url();
    }
    HealthRequest { url, timeout_secs: HEALTH_TIMEOUT_SECS }
}

/// Turns the parser's answer on a body into the answer of the probe. A
/// document is passed on unchanged.
pub fn judge_body(parsed: Result<serde_json::Value, String>) -> (reply: Result<
    serde_json::Value,
    SidecarError,
>)
    ensures
        reply_view(reply) == body_reply(parsed_view(parsed)),
{
    match parsed {
        Ok(document) => Ok(document),
        Err(cause) => Err(SidecarError::HealthCheckFailed { phase: ProbePhase::Response, cause }),
    }
}

/// Second step of a health probe: takes how the round trip ended. A body of
/// at most [`MAX_BODY_BYTES`] bytes is parsed as JSON, a longer one is turned
/// down unread; every other outcome is the failure of its phase, with the
/// cause as it was reported.
pub fn finish_health_check(outcome: ProbeOutcome) -> (reply: Result<
    serde_json::Value,
    SidecarError,
>)
    ensures
        reply_view(reply) == health_reply(outcome),
{
    match outcome {
        ProbeOutcome::ClientFailed { cause } => Err(
            SidecarError::HealthCheckFailed { phase: ProbePhase::Client, cause },
        ),
        ProbeOutcome::RequestFailed { cause } => Err(
            SidecarError::HealthCheckFailed { phase: ProbePhase::Request, cause },
        ),
        ProbeOutcome::BodyFailed { cause } => Err(
            SidecarError::HealthCheckFailed { phase: ProbePhase::Response, cause },
        ),
        ProbeOutcome::Body(bytes) => {
            if bytes.len() <= MAX_BODY_BYTES {
                judge_body(parse_json(bytes.as_slice()))
            } else {
                Err(
                    SidecarError::HealthCheckFailed {
                        phase: ProbePhase::Response,
                        cause: String::from_str("response body is too long to parse"),
                    },
                )
            }
        },
    }
}

/// A probe succeeds only on a body that parses: a round trip that ended in
/// any other way, an unanswered request among them, is a failed health check.
pub proof fn lemma_probe_succeeds_only_on_json(outcome: ProbeOutcome)
    ensures
        health_reply(outcome) is Ok <==> (outcome matches ProbeOutcome::Body(bytes)
            && bytes@.len() <= MAX_BODY_BYTES && parsed_json(bytes@) is Ok),
        health_reply(outcome) matches Err(failure) ==> failure is HealthCheckFailed,
{
}

} // verus!
