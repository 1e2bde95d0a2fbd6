//! What the server does with an HTTP request, before any IPP is read.
use crate::error::IppErrorView;
use crate::model::IppVersion;
use crate::parser::IppParseError;
use crate::request::IppRequestResponse;
use crate::service::common::{build_error_response, error_response, ServiceError};
use crate::status::StatusCode;
use crate::text::str_eq;
use vstd::prelude::*;

verus! {

/// What the server does with an HTTP request.
#[derive(Debug, Clone, Copy, PartialEq, Eq, Structural)]
pub enum HttpAnswer {
    /// `200`, with the words that say the server is running.
    Running,
    /// `404`.
    NotFound,
    /// `405`, with `Allow: POST`.
    MethodNotAllowed,
    /// `415`.
    UnsupportedMediaType,
    /// The body is an IPP request: parse it, dispatch it, and answer `200`
    /// with the IPP response as `application/ipp`.
    Ipp,
}

/// The media type of IPP messages.
pub open spec fn ipp_media_type() -> Seq<char> {
    "application/ipp"@
}

/// What the server does with a request of the method `method` for the path
/// `path` whose `Content-Type` is `content_type`. A `GET` for `/` is told
/// that the server is running, any other `GET` that nothing is there, and
/// any other method but `POST` that only `POST` is allowed. A `POST`
/// whose content is not `application/ipp` is refused as of an unsupported
/// media type; any other `POST` is an IPP request.
pub open spec fn answer_for(method: Seq<char>, path: Seq<char>, content_type: Option<Seq<char>>)
    -> HttpAnswer {
    if method != "POST"@ {
        if method == "GET"@ {
            if path == "/"@ {
                HttpAnswer::Running
            } else {
                HttpAnswer::NotFound
            }
        } else {
            HttpAnswer::MethodNotAllowed
        }
    } else if content_type != Some(ipp_media_type()) {
        HttpAnswer::UnsupportedMediaType
    } else {
        HttpAnswer::Ipp
    }
}

/// What the server does with a request of the method `method` for the path
/// `path` whose `Content-Type` is `content_type`.
pub fn handle_ipp_via_http(method: &str, path: &str, content_type: Option<&str>) -> (r: HttpAnswer)
    ensures
        r == answer_for(
            method@,
            path@,
            match content_type {
                Some(t) => Some(t@),
                None => None,
            },
        ),
{
    if !str_eq(method, "POST") {
        if str_eq(method, "GET") {
            if str_eq(path, "/") {
                HttpAnswer::Running
            } else {
                HttpAnswer::NotFound
            }
        } else {
            HttpAnswer::MethodNotAllowed
        }
    } else {
        match content_type {
            Some(t) => {
                if str_eq(t, "application/ipp") {
                    HttpAnswer::Ipp
                } else {
                    HttpAnswer::UnsupportedMediaType
                }
            },
            None => HttpAnswer::UnsupportedMediaType,
        }
    }
}

impl HttpAnswer {
    /// The status of the HTTP response.
    pub open spec fn status_code(self) -> u16 {
        match self {
            HttpAnswer::Running => 200,
            HttpAnswer::NotFound => 404,
            HttpAnswer::MethodNotAllowed => 405,
            HttpAnswer::UnsupportedMediaType => 415,
            HttpAnswer::Ipp => 200,
        }
    }

    /// The words in the body of the HTTP response; none for an IPP
    /// response, whose body is the IPP message.
    pub open spec fn words(self) -> Seq<char> {
        match self {
            HttpAnswer::Running => "IPP server running..."@,
            HttpAnswer::NotFound => "404 Not Found"@,
            HttpAnswer::MethodNotAllowed => "405 Method Not Allowed"@,
            HttpAnswer::UnsupportedMediaType => "415 Unsupported Media Type"@,
            HttpAnswer::Ipp => ""@,
        }
    }

    /// The status of the HTTP response.
    pub fn status(self) -> (r: u16)
        ensures
            r == self.status_code(),
    {
        match self {
            HttpAnswer::Running => 200,
            HttpAnswer::NotFound => 404,
            HttpAnswer::MethodNotAllowed => 405,
            HttpAnswer::UnsupportedMediaType => 415,
            HttpAnswer::Ipp => 200,
        }
    }

    /// The methods that the `Allow` header names: `POST`, where the method
    /// of the request was not allowed.
    pub fn allow(self) -> (r: Option<&'static str>)
        ensures
            match r {
                Some(m) => self == HttpAnswer::MethodNotAllowed && m@ == "POST"@,
                None => self != HttpAnswer::MethodNotAllowed,
            },
    {
        match self {
            HttpAnswer::MethodNotAllowed => Some("POST"),
            _ => None,
        }
    }

    /// The `Content-Type` of the HTTP response: `application/ipp` for an
    /// IPP response, none for any other.
    pub fn content_type(self) -> (r: Option<&'static str>)
        ensures
            match r {
                Some(t) => self == HttpAnswer::Ipp && t@ == ipp_media_type(),
                None => self != HttpAnswer::Ipp,
            },
    {
        match self {
            HttpAnswer::Ipp => Some("application/ipp"),
            _ => None,
        }
    }

    /// The words in the body of the HTTP response.
    pub fn body_text(self) -> (r: &'static str)
        ensures
            r@ == self.words(),
    {
        match self {
            HttpAnswer::Running => "IPP server running...",
            HttpAnswer::NotFound => "404 Not Found",
            HttpAnswer::MethodNotAllowed => "405 Method Not Allowed",
            HttpAnswer::UnsupportedMediaType => "415 Unsupported Media Type",
            HttpAnswer::Ipp => "",
        }
    }
}

/// The id that a request that could not be parsed is answered under: its
/// own where its header was read, else zero.
pub open spec fn answered_id(request_id: Option<u32>) -> u32 {
    match request_id {
        Some(id) => id,
        None => 0,
    }
}

/// The answer to a body that is no IPP message: an IPP response that
/// reports an internal error, with the words of what is wrong with the
/// body, in the server's version.
pub fn parse_failure<P>(version: IppVersion, request_id: Option<u32>, error: IppParseError) -> (r:
    IppRequestResponse<P>)
    ensures
        r@ == error_response::<P>(
            version,
            answered_id(request_id),
            IppErrorView { code: StatusCode::ServerErrorInternalError, msg: error.text() },
        ),
{
    let id = match request_id {
        Some(id) => id,
        None => 0,
    };
    build_error_response(version, id, ServiceError::Other(error.to_text()))
}

} // verus!
