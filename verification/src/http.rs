//! Plain-value description of one outbound HTTP request.
//!
//! The library never performs network I/O itself: it builds a value of
//! [`HttpRequest`] that says exactly what should go on the wire, and the
//! surrounding application hands it to a transport.

use vstd::prelude::*;

verus! {

/// The HTTP method of an outbound request.
#[derive(Clone, Copy, PartialEq, Eq, Structural, Debug)]
pub enum HttpMethod {
    Get,
    Post,
    Put,
    Delete,
    Patch,
    Head,
    Options,
}

/// The view of an `Option<String>` as an optional sequence of characters.
pub open spec fn opt_str_view(o: Option<String>) -> Option<Seq<char>> {
    match o {
        Some(s) => Some(s@),
        None => None,
    }
}

/// Mathematical model of an [`HttpRequest`].
pub ghost struct HttpRequestView {
    pub method: HttpMethod,
    pub base_url: Seq<char>,
    pub url: Seq<char>,
    pub user_agent: Seq<char>,
    pub authorization: Option<Seq<char>>,
    pub body: Option<Seq<char>>,
    pub timeout_secs: Option<u64>,
}

/// Everything the transport needs to issue one request: the method, the
/// URL (`url` resolved against `base_url`), the two headers this library
/// ever sets (`user-agent`, and `Authorization` when present), an optional
/// body, and an optional per-request timeout.
pub struct HttpRequest {
    pub method: HttpMethod,
    pub base_url: String,
    pub url: String,
    pub user_agent: String,
    pub authorization: Option<String>,
    pub body: Option<String>,
    pub timeout_secs: Option<u64>,
}

impl View for HttpRequest {
    type V = HttpRequestView;

    open spec fn view(&self) -> HttpRequestView {
        HttpRequestView {
            method: self.method,
            base_url: self.base_url@,
            url: self.url@,
            user_agent: self.user_agent@,
            authorization: opt_str_view(self.authorization),
            body: opt_str_view(self.body),
            timeout_secs: self.timeout_secs,
        }
    }
}

} // verus!
