//! The decisions of the request executor: what to send, to which URL, and what
//! a response or a fault amounts to.
use vstd::prelude::*;
use vstd::string::*;
use crate::error::{fault_error, ApiError, HttpError, StatusCode, TransportFault};
use crate::query::QueryMap;

verus! {

/// The method of a request.
#[derive(Clone, Copy, Debug, PartialEq, Eq, Structural)]
pub enum HttpMethod {
    Get,
    Post,
    Put,
}

/// A request to send: method, path below the base URL, and query parameters.
/// A body, where the method takes one, is attached by the sender.
pub struct ApiRequest {
    pub method: HttpMethod,
    pub path: String,
    pub query: Option<QueryMap>,
}

impl ApiRequest {
    /// The view of the query parameters, if any.
    pub open spec fn query_view(&self) -> Option<Map<Seq<char>, Seq<char>>> {
        match self.query {
            Some(q) => Some(q@),
            None => None,
        }
    }

    /// Whether the query parameters, if any, are well formed.
    pub open spec fn wf(&self) -> bool {
        match self.query {
            Some(q) => q.wf(),
            None => true,
        }
    }

    /// Whether this request has the given method, path and parameters.
    pub open spec fn is(
        &self,
        method: HttpMethod,
        path: Seq<char>,
        query: Option<Map<Seq<char>, Seq<char>>>,
    ) -> bool {
        &&& self.wf()
        &&& self.method == method
        &&& self.path@ == path
        &&& self.query_view() == query
    }

    /// A GET request.
    pub fn get(path: String, query: Option<QueryMap>) -> (r: ApiRequest)
        requires
            query matches Some(q) ==> q.wf(),
        ensures
            r.method == HttpMethod::Get,
            r.path == path,
            r.query == query,
    {
        ApiRequest { method: HttpMethod::Get, path, query }
    }

    /// A POST request, without query parameters.
    pub fn post(path: String) -> (r: ApiRequest)
        ensures
            r.method == HttpMethod::Post,
            r.path == path,
            r.query is None,
    {
        ApiRequest { method: HttpMethod::Post, path, query: None }
    }
}

/// The text of an optional path: empty where absent.
pub open spec fn path_text(path: Option<&str>) -> Seq<char> {
    match path {
        Some(p) => p@,
        None => Seq::empty(),
    }
}

/// The full URL of a request: the base URL followed by the path, or the base
/// URL alone where there is no path.
pub fn request_url(base_url: &str, path: Option<&str>) -> (r: String)
    ensures
        r@ == base_url@ + path_text(path),
{
    let mut url = String::from_str(base_url);
    if let Some(p) = path {
        url.append(p);
    } else {
        assert(base_url@ + path_text(path) =~= base_url@);
    }
    url
}

/// The text `a`, `b` and `c` one after the other.
pub fn concat3(a: &str, b: &str, c: &str) -> (r: String)
    ensures
        r@ == a@ + b@ + c@,
{
    let mut r = String::from_str(a);
    r.append(b);
    r.append(c);
    r
}

/// The text of a body that was read, or empty where reading it failed.
pub open spec fn body_text(body: Result<String, TransportFault>) -> Seq<char> {
    match body {
        Ok(t) => t@,
        Err(_) => Seq::empty(),
    }
}

/// What a response amounts to. A client-error or server-error status is an
/// HTTP error with that status, the URL that was reached and whatever body
/// text was read, even where reading it failed. Otherwise the body text is
/// the result, or the classified fault where reading it failed.
pub fn triage_response(status: StatusCode, url: String, body: Result<String, TransportFault>) -> (r:
    Result<String, ApiError>)
    ensures
        status.client_error() || status.server_error() ==> match r {
            Err(e) => e.is_http_with(status.code, Some(url@), body_text(body)),
            Ok(_) => false,
        },
        !(status.client_error() || status.server_error()) ==> match body {
            Ok(t) => r == Ok::<String, ApiError>(t),
            Err(f) => match r {
                Err(e) => fault_error(f, e),
                Ok(_) => false,
            },
        },
{
    if status.is_client_error() || status.is_server_error() {
        let text = match body {
            Ok(t) => t,
            Err(_) => String::new(),
        };
        Err(ApiError::Http(HttpError { status: status.as_u16(), url: Some(url), body: text }))
    } else {
        match body {
            Ok(t) => Ok(t),
            Err(f) => Err(ApiError::from_fault(f)),
        }
    }
}

/// The outcome of decoding a successful response: the record, or a decode
/// error that carries the parser's message.
pub fn decode_outcome<T>(parsed: Result<T, String>) -> (r: Result<T, ApiError>)
    ensures
        match parsed {
            Ok(v) => r == Ok::<T, ApiError>(v),
            Err(m) => match r {
                Err(e) => e.is_decode_with("JSON decode error: "@ + m@),
                Ok(_) => false,
            },
        },
{
    match parsed {
        Ok(v) => Ok(v),
        Err(m) => Err(ApiError::json_decode(m.as_str())),
    }
}

} // verus!
