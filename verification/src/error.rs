//! The two kinds of failure an operation reports.

use vstd::prelude::*;
use vstd::string::*;
use crate::text::join2;

verus! {

/// Why a request was not served.
#[derive(Debug, PartialEq, Eq)]
pub enum AppError {
    /// The caller can mend the request; the text names the offending field.
    BadRequest(String),
    /// An unexpected condition inside the service; no detail leaves it.
    Internal,
}

/// The HTTP status that reports a request the caller can mend.
pub const STATUS_BAD_REQUEST: u16 = 400;

/// The HTTP status that reports an unexpected internal fault.
pub const STATUS_INTERNAL: u16 = 500;

impl AppError {
    /// Whether this is a `BadRequest` carrying exactly `text`.
    pub open spec fn is_bad_request(&self, text: Seq<char>) -> bool {
        self matches AppError::BadRequest(m) && m@ == text
    }

    /// The text shown to the caller.
    pub open spec fn message_text(&self) -> Seq<char> {
        match self {
            AppError::BadRequest(m) => m@,
            AppError::Internal => "Internal server error"@,
        }
    }

    /// The HTTP status the error is reported with.
    pub open spec fn status(&self) -> u16 {
        match self {
            AppError::BadRequest(_) => STATUS_BAD_REQUEST,
            AppError::Internal => STATUS_INTERNAL,
        }
    }

    /// The error for a body that is not the JSON the endpoint expects;
    /// `detail` is what the decoder said of it.
    pub fn invalid_json(detail: &str) -> (e: AppError)
        ensures
            e.is_bad_request("Invalid JSON: "@ + detail@),
    {
        AppError::BadRequest(join2("Invalid JSON: ", detail))
    }

    /// The text shown to the caller: the message of a `BadRequest`, a fixed
    /// sentence for `Internal`.
    pub fn message(&self) -> (m: String)
        ensures
            m@ == self.message_text(),
    {
        match self {
            AppError::BadRequest(m) => m.clone(),
            AppError::Internal => String::from_str("Internal server error"),
        }
    }

    /// The HTTP status the error is reported with: 400 or 500.
    pub fn status_code(&self) -> (code: u16)
        ensures
            code == self.status(),
            code == 400 || code == 500,
            code == 400 <==> self is BadRequest,
    {
        match self {
            AppError::BadRequest(_) => STATUS_BAD_REQUEST,
            AppError::Internal => STATUS_INTERNAL,
        }
    }
}

/// Whether `r` reports `failure`: success where there is none, otherwise a
/// `BadRequest` with exactly its text.
pub open spec fn reports<T>(r: Result<T, AppError>, failure: Option<Seq<char>>) -> bool {
    match r {
        Ok(_) => failure is None,
        Err(e) => failure matches Some(text) && e.is_bad_request(text),
    }
}

} // verus!
