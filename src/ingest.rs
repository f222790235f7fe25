//! The HTTP ingest source: validation of a pushed heart rate and the
//! bodies of the endpoint's answers. Serving HTTP is left to the caller.

use vstd::prelude::*;
use crate::payload::is_valid_bpm;
use crate::thresholds::{decimal_digits, decimal_text};

verus! {

/// The query of a push: `?bpm=<n>`.
pub struct HeartRateQuery {
    pub bpm: Option<u32>,
}

/// The body of an answer.
pub struct ApiResponse {
    pub status: String,
    pub message: String,
}

/// Why a push was refused.
#[derive(PartialEq, Eq, Structural, Clone, Copy, Debug)]
pub enum IngestRejection {
    /// The heart rate is missing or out of range.
    BadRequest,
    /// The heart rate could not be handed on.
    Internal,
}

impl IngestRejection {
    /// The HTTP status of the refusal.
    pub fn status_code(&self) -> (r: u16)
        ensures
            self is BadRequest ==> r == 400,
            self is Internal ==> r == 500,
    {
        match self {
            IngestRejection::BadRequest => 400,
            IngestRejection::Internal => 500,
        }
    }
}

/// Accepts a push whose heart rate is present and valid.
pub fn validate_heart_rate_query(query: &HeartRateQuery) -> (r: Result<u32, IngestRejection>)
    ensures
        r == (match query.bpm {
            Some(v) => if is_valid_bpm(v as int) {
                Ok(v)
            } else {
                Err(IngestRejection::BadRequest)
            },
            None => Err(IngestRejection::BadRequest),
        }),
{
    match query.bpm {
        Some(v) => {
            if v > 0 && v < 300 {
                Ok(v)
            } else {
                Err(IngestRejection::BadRequest)
            }
        },
        None => Err(IngestRejection::BadRequest),
    }
}

/// The answer to an accepted push.
pub fn heart_rate_response(bpm: u32) -> (r: ApiResponse)
    ensures
        r.status@ == "success"@,
        r.message@ == "Heart rate "@ + decimal_digits(bpm as nat) + " BPM received"@,
{
    let mut message = String::from_str("Heart rate ");
    let digits = decimal_text(bpm);
    message.append(digits.as_str());
    message.append(" BPM received");
    ApiResponse { status: String::from_str("success"), message }
}

/// The answer of the liveness endpoint.
pub fn health_handler() -> (r: ApiResponse)
    ensures
        r.status@ == "ok"@,
        r.message@ == "Apple Watch server is running"@,
{
    ApiResponse {
        status: String::from_str("ok"),
        message: String::from_str("Apple Watch server is running"),
    }
}

} // verus!
