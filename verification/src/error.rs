use vstd::prelude::*;
use crate::text::{push_signed_decimal, push_text, signed_decimal};

verus! {

/// The failures of the library. The payloads of the transport failures are
/// the messages of the underlying errors.
#[derive(Debug)]
pub enum XcelerateError {
    WsError(String),
    SerdeError(String),
    CdpResponseError { code: i32, message: String },
    HttpError(String),
    NotFound(String),
    InternalError,
}

/// The outcome of an operation of the library.
pub type XcelerateResult<T> = Result<T, XcelerateError>;

impl XcelerateError {
    /// The human-readable description of the error.
    pub open spec fn description(&self) -> Seq<char> {
        match self {
            XcelerateError::WsError(m) => "WebSocket error: "@ + m@,
            XcelerateError::SerdeError(m) => "JSON error: "@ + m@,
            XcelerateError::CdpResponseError { code, message } => "CDP Error "@ + signed_decimal(
                *code as int,
            ) + ": "@ + message@,
            XcelerateError::HttpError(m) => "HTTP error: "@ + m@,
            XcelerateError::NotFound(m) => "Target not found: "@ + m@,
            XcelerateError::InternalError => "Internal channel error"@,
        }
    }

    /// The human-readable description of the error.
    pub fn to_string(&self) -> (r: String)
        ensures
            r@ == self.description(),
    {
        let mut s = String::new();
        match self {
            XcelerateError::WsError(m) => {
                push_text(&mut s, "WebSocket error: ");
                push_text(&mut s, m.as_str());
            },
            XcelerateError::SerdeError(m) => {
                push_text(&mut s, "JSON error: ");
                push_text(&mut s, m.as_str());
            },
            XcelerateError::CdpResponseError { code, message } => {
                push_text(&mut s, "CDP Error ");
                push_signed_decimal(&mut s, *code as i64);
                push_text(&mut s, ": ");
                push_text(&mut s, message.as_str());
            },
            XcelerateError::HttpError(m) => {
                push_text(&mut s, "HTTP error: ");
                push_text(&mut s, m.as_str());
            },
            XcelerateError::NotFound(m) => {
                push_text(&mut s, "Target not found: ");
                push_text(&mut s, m.as_str());
            },
            XcelerateError::InternalError => {
                push_text(&mut s, "Internal channel error");
            },
        }
        assert(s@ =~= self.description());
        s
    }
}

} // verus!
