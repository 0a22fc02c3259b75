//! Plain-value picture of an HTTP exchange with the GitHub API.
//!
//! The library only decides *what* to send and *how to read* what came back;
//! the transport itself lives outside. Every request carries the same fixed
//! header set (bearer token, `User-Agent`, `Accept`, and the dated API-version
//! header), which the driver adds from the client's identity.

use vstd::prelude::*;

verus! {

/// HTTP method of a request to the GitHub API.
#[derive(Clone, Copy, Debug, PartialEq, Eq, Structural)]
pub enum Method {
    Get,
    Put,
    Post,
    Patch,
    Delete,
}

/// A fully determined API request: method, absolute URL, and an optional
/// JSON body. Headers are not part of the value: they are the same for
/// every request and are added by the driver.
pub struct HttpRequest {
    pub method: Method,
    pub url: String,
    pub body: Option<String>,
}

/// Ghost image of a request: the method together with the character
/// sequences of the URL and body.
pub struct RequestView {
    pub method: Method,
    pub url: Seq<char>,
    pub body: Option<Seq<char>>,
}

impl View for HttpRequest {
    type V = RequestView;

    open spec fn view(&self) -> RequestView {
        RequestView { method: self.method, url: self.url@, body: self.body.deep_view() }
    }
}

/// What the transport hands back: the status code and the body text.
pub struct HttpResponse {
    pub status: u16,
    pub body: String,
}

/// A status in the 2xx range counts as success.
pub open spec fn is_success(status: u16) -> bool {
    200 <= status && status < 300
}

/// Executable form of the 2xx test.
pub fn status_is_success(status: u16) -> (r: bool)
    ensures
        r == is_success(status),
{
    200 <= status && status < 300
}

} // verus!
