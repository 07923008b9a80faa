//! The error taxonomy: every failure is an HTTP status, a decode failure, or
//! a fault that never produced a status.
use vstd::prelude::*;
use vstd::string::*;

verus! {

/// The remote answered with a client-error or server-error status.
#[derive(Clone, Debug, PartialEq, Eq)]
pub struct HttpError {
    pub status: u16,
    pub url: Option<String>,
    pub body: String,
}

/// A failure of an operation.
#[derive(Clone, Debug, PartialEq, Eq)]
pub enum ApiError {
    /// The remote rejected or failed the request with a status code.
    Http(HttpError),
    /// The response could not be read into the expected shape.
    Decode(String),
    /// No response was obtained: connectivity, timeout, TLS or another fault.
    Unexpected(String),
}

/// An HTTP status code.
#[derive(Clone, Copy, Debug, PartialEq, Eq, Structural)]
pub struct StatusCode {
    pub code: u16,
}

/// The status reported for a fault that carries none, where one is needed.
pub const INTERNAL_SERVER_ERROR: u16 = 500;

/// The delay, in seconds, suggested before a retry.
pub const RETRY_DELAY_SECS: u64 = 10;

impl StatusCode {
    /// Whether the code is in the client-error range, 400 to 499.
    pub open spec fn client_error(&self) -> bool {
        400 <= self.code < 500
    }

    /// Whether the code is in the server-error range, 500 to 599.
    pub open spec fn server_error(&self) -> bool {
        500 <= self.code < 600
    }

    /// The code as a number.
    pub fn as_u16(&self) -> (r: u16)
        ensures
            r == self.code,
    {
        self.code
    }

    /// Whether the code is in the client-error range.
    pub fn is_client_error(&self) -> (r: bool)
        ensures
            r == self.client_error(),
    {
        400 <= self.code && self.code < 500
    }

    /// Whether the code is in the server-error range.
    pub fn is_server_error(&self) -> (r: bool)
        ensures
            r == self.server_error(),
    {
        500 <= self.code && self.code < 600
    }
}

/// What a transport fault tells about itself, as plain values.
#[derive(Clone, Debug, PartialEq, Eq)]
pub struct TransportFault {
    /// The status code, where the fault carries one.
    pub status: Option<u16>,
    /// The URL of the request, where known.
    pub url: Option<String>,
    /// The fault arose while decoding the response body.
    pub is_decode: bool,
    /// The request timed out.
    pub is_timeout: bool,
    /// The connection could not be established.
    pub is_connect: bool,
    /// The fault's message.
    pub message: String,
    /// The fault's detailed description.
    pub detail: String,
}

impl HttpError {
    /// The HTTP error a transport fault stands for: its status, or 500 where it
    /// carries none, with its URL and its message as the body.
    pub fn from_fault(fault: TransportFault) -> (r: HttpError)
        ensures
            r.status == match fault.status {
                Some(s) => s,
                None => INTERNAL_SERVER_ERROR,
            },
            r.url == fault.url,
            r.body == fault.message,
    {
        let status = match fault.status {
            Some(s) => s,
            None => INTERNAL_SERVER_ERROR,
        };
        HttpError { status, url: fault.url, body: fault.message }
    }
}

impl From<HttpError> for ApiError {
    fn from(error: HttpError) -> (r: ApiError) {
        ApiError::Http(error)
    }
}

impl vstd::std_specs::convert::FromSpecImpl<HttpError> for ApiError {
    open spec fn obeys_from_spec() -> bool {
        true
    }

    open spec fn from_spec(error: HttpError) -> ApiError {
        ApiError::Http(error)
    }
}

impl From<String> for ApiError {
    fn from(error: String) -> (r: ApiError) {
        ApiError::Unexpected(error)
    }
}

impl vstd::std_specs::convert::FromSpecImpl<String> for ApiError {
    open spec fn obeys_from_spec() -> bool {
        true
    }

    open spec fn from_spec(error: String) -> ApiError {
        ApiError::Unexpected(error)
    }
}

impl ApiError {
    /// Whether this is a decode error with the given message.
    pub open spec fn is_decode_with(&self, message: Seq<char>) -> bool {
        match self {
            ApiError::Decode(m) => m@ == message,
            _ => false,
        }
    }

    /// Whether this is an HTTP error with the given status, URL and body.
    pub open spec fn is_http_with(&self, status: u16, url: Option<Seq<char>>, body: Seq<char>) -> bool {
        match self {
            ApiError::Http(e) => {
                &&& e.status == status
                &&& match e.url {
                    Some(u) => url == Some(u@),
                    None => url is None,
                }
                &&& e.body@ == body
            },
            _ => false,
        }
    }

    /// Whether this is an unexpected error with the given message.
    pub open spec fn is_unexpected_with(&self, message: Seq<char>) -> bool {
        match self {
            ApiError::Unexpected(m) => m@ == message,
            _ => false,
        }
    }

    /// Classifies a transport fault (see `fault_error`).
    pub fn from_fault(fault: TransportFault) -> (r: ApiError)
        ensures
            fault_error(fault, r),
    {
        if fault.status.is_some() {
            ApiError::Http(HttpError::from_fault(fault))
        } else if fault.is_decode {
            let mut m = String::from_str("Response decoding error: ");
            m.append(fault.detail.as_str());
            ApiError::Decode(m)
        } else if fault.is_timeout {
            ApiError::Unexpected(String::from_str("Request timeout"))
        } else if fault.is_connect {
            ApiError::Unexpected(String::from_str("Connection error"))
        } else {
            ApiError::Unexpected(String::from_str("Request error"))
        }
    }

    /// The decode error for a body that is not valid JSON for the expected record.
    pub fn json_decode(detail: &str) -> (r: ApiError)
        ensures
            r.is_decode_with("JSON decode error: "@ + detail@),
    {
        let mut m = String::from_str("JSON decode error: ");
        m.append(detail);
        ApiError::Decode(m)
    }
}

/// The error that a transport fault is classified as. A fault with a status
/// code is always an HTTP error; otherwise a body-decoding fault is a decode
/// error, and a timeout, a connection failure or any other fault is unexpected.
pub open spec fn fault_error(fault: TransportFault, e: ApiError) -> bool {
    match fault.status {
        Some(s) => e == ApiError::Http(
            (HttpError { status: s, url: fault.url, body: fault.message }),
        ),
        None => if fault.is_decode {
            e.is_decode_with("Response decoding error: "@ + fault.detail@)
        } else if fault.is_timeout {
            e.is_unexpected_with("Request timeout"@)
        } else if fault.is_connect {
            e.is_unexpected_with("Connection error"@)
        } else {
            e.is_unexpected_with("Request error"@)
        },
    }
}

/// A failure or status whose retryability can be judged.
pub trait Retryable {
    /// Whether a retry may succeed.
    spec fn retryable(&self) -> bool;

    /// Whether a retry may succeed.
    fn is_retryable(&self) -> (r: bool)
        ensures
            r == self.retryable(),
    ;

    /// The suggested delay before a retry, in seconds.
    fn retry_delay(&self) -> (r: Option<u64>)
        ensures
            r == Some(RETRY_DELAY_SECS),
    ;
}

impl Retryable for StatusCode {
    /// Too many requests, internal server error, bad gateway, service
    /// unavailable and gateway timeout are worth a retry.
    open spec fn retryable(&self) -> bool {
        self.code == 429 || self.code == 500 || self.code == 502 || self.code == 503 || self.code
            == 504
    }

    fn is_retryable(&self) -> (r: bool) {
        match self.code {
            429 => true,
            500 => true,
            502 => true,
            503 => true,
            504 => true,
            _ => false,
        }
    }

    fn retry_delay(&self) -> (r: Option<u64>) {
        Some(RETRY_DELAY_SECS)
    }
}

impl Retryable for TransportFault {
    /// A timeout or a failed connection is worth a retry.
    open spec fn retryable(&self) -> bool {
        self.is_timeout || self.is_connect
    }

    fn is_retryable(&self) -> (r: bool) {
        self.is_timeout || self.is_connect
    }

    fn retry_delay(&self) -> (r: Option<u64>) {
        Some(RETRY_DELAY_SECS)
    }
}

} // verus!
