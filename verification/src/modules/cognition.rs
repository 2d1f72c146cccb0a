//! The planning side of the agent. The planner is a service outside this
//! library; here are its handle and the reading of what it answers.

use crate::modules::text::{signed_digits, signed_text};
use vstd::prelude::*;
use vstd::string::*;

verus! {

/// The handle of the planner.
#[derive(Clone, Copy, Debug, PartialEq, Eq, Structural)]
pub struct Cognition;

impl Cognition {
    /// A new handle.
    pub fn new() -> (cognition: Self)
        ensures
            cognition == Cognition,
    {
        Self
    }
}

/// Why the planner gave no answer.
#[derive(Clone, Debug, PartialEq, Eq)]
pub enum CognitionError {
    /// The service refused the request or reported an error.
    ApiError(String),
    /// The answer of the service holds no text.
    ParseError(String),
}

/// What an error says to the user.
pub open spec fn error_message(error: CognitionError) -> Seq<char> {
    match error {
        CognitionError::ApiError(reason) => "API returned an error: "@ + reason@,
        CognitionError::ParseError(reason) => "Failed to parse API response: "@ + reason@,
    }
}

impl CognitionError {
    /// What the error says to the user.
    pub fn message(&self) -> (message: String)
        ensures
            message@ == error_message(*self),
    {
        match self {
            CognitionError::ApiError(reason) => {
                String::from_str("API returned an error: ").concat(reason.as_str())
            },
            CognitionError::ParseError(reason) => {
                String::from_str("Failed to parse API response: ").concat(reason.as_str())
            },
        }
    }
}

/// An error that the service reports in its answer.
#[derive(Clone, Debug, PartialEq, Eq)]
pub struct ApiFailure {
    pub message: String,
    pub code: Option<i32>,
}

/// An answer of the service: its candidates, each as the texts of its parts,
/// and the error that it reports, if any.
#[derive(Clone, Debug, PartialEq, Eq)]
pub struct Reply {
    pub candidates: Option<Vec<Vec<String>>>,
    pub error: Option<ApiFailure>,
}

/// How an optional error code is written: `None`, or `Some(` and `)` around
/// the number.
pub open spec fn code_text(code: Option<i32>) -> Seq<char> {
    match code {
        None => "None"@,
        Some(n) => "Some("@ + signed_digits(n as int) + ")"@,
    }
}

/// The message for an error that the service reports.
pub open spec fn api_failure_message(message: Seq<char>, code: Option<i32>) -> Seq<char> {
    "Gemini API error: "@ + message + " (code: "@ + code_text(code) + ")"@
}

/// The message for a request that the service refused, with the status line
/// and the body of the refusal.
pub open spec fn http_failure_message(status: Seq<char>, body: Seq<char>) -> Seq<char> {
    "HTTP "@ + status + ": "@ + body
}

/// Whether the answer holds a text: it has a first candidate with a first
/// part.
pub open spec fn has_text(reply: Reply) -> bool {
    &&& reply.candidates is Some
    &&& reply.candidates->0@.len() > 0
    &&& reply.candidates->0@[0]@.len() > 0
}

/// The error for a request that the service refused.
pub fn http_failure(status: &str, body: &str) -> (error: CognitionError)
    ensures
        error matches CognitionError::ApiError(message) && message@ == http_failure_message(
            status@,
            body@,
        ),
{
    CognitionError::ApiError(String::from_str("HTTP ").concat(status).concat(": ").concat(body))
}

/// Reads an answer of the service. An error that it reports comes first;
/// else the text is that of the first part of the first candidate; where
/// there is none, that is an error too.
pub fn reply_text(reply: &Reply) -> (text: Result<String, CognitionError>)
    ensures
        match text {
            Ok(t) => reply.error is None && has_text(*reply) && t@ == reply.candidates->0@[0]@[0]@,
            Err(CognitionError::ApiError(message)) => reply.error is Some && message@
                == api_failure_message(reply.error->0.message@, reply.error->0.code),
            Err(CognitionError::ParseError(message)) => reply.error is None && !has_text(*reply)
                && message@ == "No text content found in API response"@,
        },
{
    if let Some(failure) = &reply.error {
        let code = match failure.code {
            None => String::from_str("None"),
            Some(n) => String::from_str("Some(").concat(signed_text(n).as_str()).concat(")"),
        };
        let message = String::from_str("Gemini API error: ").concat(
            failure.message.as_str(),
        ).concat(" (code: ").concat(code.as_str()).concat(")");
        return Err(CognitionError::ApiError(message));
    }
    if let Some(candidates) = &reply.candidates {
        if candidates.len() > 0 {
            let parts = &candidates[0];
            if parts.len() > 0 {
                return Ok(parts[0].clone());
            }
        }
    }
    Err(CognitionError::ParseError(String::from_str("No text content found in API response")))
}

} // verus!
