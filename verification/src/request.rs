//! The single exchange with the server: which request is sent for a target and a body.

use vstd::prelude::*;

verus! {

/// The two requests that the client sends.
#[derive(Debug, Clone, Copy, PartialEq, Eq, Structural)]
pub enum Method {
    /// Fetch what the target holds.
    Get,
    /// Send a body to the target.
    Post,
}

/// A request that is ready to be sent.
#[derive(Debug, Clone, PartialEq, Eq)]
pub struct Request {
    /// How the target is addressed.
    pub method: Method,
    /// The target URL.
    pub url: String,
    /// The payload; empty for a fetch.
    pub body: String,
}

/// The mathematical value of a [`Request`].
pub struct RequestView {
    pub method: Method,
    pub url: Seq<char>,
    pub body: Seq<char>,
}

impl View for Request {
    type V = RequestView;

    open spec fn view(&self) -> RequestView {
        RequestView { method: self.method, url: self.url@, body: self.body@ }
    }
}

/// The method that a body calls for: an empty body is a fetch, any other is sent.
pub open spec fn method_for(body: Seq<char>) -> Method {
    if body.len() == 0 {
        Method::Get
    } else {
        Method::Post
    }
}

/// Chooses the request for a target and a body: a fetch where the body is
/// empty, else a post that carries the body as it is.
pub fn plan_request(url: &str, body: &str) -> (r: Request)
    ensures
        r@ == (RequestView { method: method_for(body@), url: url@, body: body@ }),
{
    let method = if body.unicode_len() == 0 {
        Method::Get
    } else {
        Method::Post
    };
    Request { method: method, url: url.to_owned(), body: body.to_owned() }
}

} // verus!
