//! HTTP responses and errors of the platform HTTP client.
use vstd::prelude::*;

verus! {

#[verifier::external_type_specification]
#[verifier::external_body]
pub struct ExBitreqError(bitreq::Error);

/// HTTP client error, by the kind of failure.
#[derive(Clone, Debug)]
pub enum HttpError {
    Builder(String),
    Redirect(String),
    Status { status: u16, body: String },
    Timeout(String),
    Request(String),
    Connect(String),
    Body(String),
    Decode(String),
    Json(String),
    Other(String),
}

impl HttpError {
    /// The HTTP status code, where the error carries one.
    pub fn status(&self) -> (r: Option<u16>)
        ensures
            r == match self {
                HttpError::Status { status, .. } => Some(*status),
                _ => None::<u16>,
            },
    {
        match self {
            HttpError::Status { status, .. } => Some(*status),
            _ => None,
        }
    }
}

/// Response to an HTTP request.
#[derive(Clone, Debug)]
pub struct HttpResponse {
    pub status: u16,
    pub body: String,
}

impl HttpResponse {
    /// Whether the status code is a success code (2xx).
    pub fn is_success(&self) -> (r: bool)
        ensures
            r == (200 <= self.status && self.status < 300),
    {
        200 <= self.status && self.status < 300
    }
}

/// What a bitreq error reports, by variant.
#[derive(Clone, Debug)]
pub enum BitreqFailure {
    /// An I/O failure; `timed_out` where it was a timeout.
    Io { timed_out: bool },
    InvalidUtf8InBody,
    InvalidUtf8InResponse,
    TooManyRedirections,
    InfiniteRedirectionLoop,
    RedirectLocationMissing,
    AddressNotFound,
    InvalidUrl,
    BodyOverflow,
    /// bitreq's own message for an internal failure.
    Other(String),
    /// Any other variant.
    Unlisted,
}

/// Relies on bitreq::Error's variants, and on std::io::Error::kind for the
/// I/O variant: tells the variants apart, one arm each.
#[verifier::external_body]
fn bitreq_failure(err: &bitreq::Error) -> (r: BitreqFailure) {
    match err {
        bitreq::Error::IoError(io) => BitreqFailure::Io {
            timed_out: io.kind() == std::io::ErrorKind::TimedOut,
        },
        bitreq::Error::InvalidUtf8InBody(_) => BitreqFailure::InvalidUtf8InBody,
        bitreq::Error::InvalidUtf8InResponse => BitreqFailure::InvalidUtf8InResponse,
        bitreq::Error::TooManyRedirections => BitreqFailure::TooManyRedirections,
        bitreq::Error::InfiniteRedirectionLoop => BitreqFailure::InfiniteRedirectionLoop,
        bitreq::Error::RedirectLocationMissing => BitreqFailure::RedirectLocationMissing,
        bitreq::Error::AddressNotFound => BitreqFailure::AddressNotFound,
        bitreq::Error::InvalidUrl(_) => BitreqFailure::InvalidUrl,
        bitreq::Error::BodyOverflow => BitreqFailure::BodyOverflow,
        bitreq::Error::Other(msg) => BitreqFailure::Other((*msg).to_string()),
        _ => BitreqFailure::Unlisted,
    }
}

/// Relies on bitreq::Error's derived `Debug`: a text describing the error.
#[verifier::external_body]
fn bitreq_debug_text(err: &bitreq::Error) -> (r: String) {
    format!("{err:?}")
}

/// The HTTP error that a bitreq failure stands for, described by `text`: a
/// timeout, a connection failure (other I/O failures and unresolved
/// addresses), a decode failure (invalid UTF-8), a redirect failure, a
/// request failure (invalid URL), a body failure (oversized body), or else
/// another failure, which keeps bitreq's own message where it gave one.
pub open spec fn http_error_of(f: BitreqFailure, text: String) -> HttpError {
    match f {
        BitreqFailure::Io { timed_out } => if timed_out {
            HttpError::Timeout(text)
        } else {
            HttpError::Connect(text)
        },
        BitreqFailure::InvalidUtf8InBody | BitreqFailure::InvalidUtf8InResponse => HttpError::Decode(
            text,
        ),
        BitreqFailure::TooManyRedirections | BitreqFailure::InfiniteRedirectionLoop
        | BitreqFailure::RedirectLocationMissing => HttpError::Redirect(text),
        BitreqFailure::AddressNotFound => HttpError::Connect(text),
        BitreqFailure::InvalidUrl => HttpError::Request(text),
        BitreqFailure::BodyOverflow => HttpError::Body(text),
        BitreqFailure::Other(msg) => HttpError::Other(msg),
        BitreqFailure::Unlisted => HttpError::Other(text),
    }
}

impl HttpError {
    /// Classifies a bitreq failure, described by `text`.
    pub fn from_failure(failure: BitreqFailure, text: String) -> (r: HttpError)
        ensures
            r == http_error_of(failure, text),
    {
        match failure {
            BitreqFailure::Io { timed_out } => {
                if timed_out {
                    HttpError::Timeout(text)
                } else {
                    HttpError::Connect(text)
                }
            },
            BitreqFailure::InvalidUtf8InBody | BitreqFailure::InvalidUtf8InResponse => {
                HttpError::Decode(text)
            },
            BitreqFailure::TooManyRedirections | BitreqFailure::InfiniteRedirectionLoop
            | BitreqFailure::RedirectLocationMissing => HttpError::Redirect(text),
            BitreqFailure::AddressNotFound => HttpError::Connect(text),
            BitreqFailure::InvalidUrl => HttpError::Request(text),
            BitreqFailure::BodyOverflow => HttpError::Body(text),
            BitreqFailure::Other(msg) => HttpError::Other(msg),
            BitreqFailure::Unlisted => HttpError::Other(text),
        }
    }

    /// The HTTP error for a bitreq error, described by its debug text.
    pub fn from_bitreq(err: &bitreq::Error) -> (r: HttpError)
        ensures
            exists|f: BitreqFailure, text: String| r == http_error_of(f, text),
    {
        let failure = bitreq_failure(err);
        let text = bitreq_debug_text(err);
        let r = HttpError::from_failure(failure, text);
        proof {
            assert(r == http_error_of(failure, text));
        }
        r
    }
}

} // verus!
