//! Requests as plain values, and the judgement of a status.

use vstd::prelude::*;
use crate::error::BbsError;

verus! {

/// The user-agent string sent with every request.
pub const UA: &'static str = "bbs_post/0.1.0";

/// The request method.
#[derive(Debug, Clone, Copy, PartialEq, Eq, Structural)]
pub enum Method {
    Get,
    Post,
}

/// One header line of a request.
#[derive(Debug)]
pub struct Header {
    pub name: String,
    pub value: String,
}

/// An HTTP request, ready to be handed to a transport.
#[derive(Debug)]
pub struct Request {
    pub method: Method,
    pub url: String,
    pub headers: Vec<Header>,
    pub body: String,
}

/// A `Request` as a mathematical value; each header is a pair of name and value.
pub struct RequestView {
    pub method: Method,
    pub url: Seq<char>,
    pub headers: Seq<(Seq<char>, Seq<char>)>,
    pub body: Seq<char>,
}

impl View for Request {
    type V = RequestView;

    open spec fn view(&self) -> RequestView {
        RequestView {
            method: self.method,
            url: self.url@,
            headers: Seq::new(
                self.headers@.len(),
                |i: int| (self.headers@[i].name@, self.headers@[i].value@),
            ),
            body: self.body@,
        }
    }
}

/// The anonymous GET of `url`: no body, and the user agent as its only header.
pub open spec fn get_of(url: Seq<char>) -> RequestView {
    RequestView {
        method: Method::Get,
        url,
        headers: seq![("User-Agent"@, UA@)],
        body: Seq::empty(),
    }
}

/// Whether `status` reports success, that is lies in 200..=299.
pub open spec fn is_success(status: u16) -> bool {
    200 <= status <= 299
}

/// Builds a header line.
pub fn header(name: &str, value: String) -> (h: Header)
    ensures
        h.name@ == name@,
        h.value@ == value@,
{
    Header { name: String::from_str(name), value }
}

/// Builds the anonymous GET of `url`.
pub fn get(url: String) -> (r: Request)
    ensures
        r@ == get_of(url@),
{
    let mut headers: Vec<Header> = Vec::new();
    headers.push(header("User-Agent", String::from_str(UA)));
    let r = Request { method: Method::Get, url, headers, body: String::new() };
    proof {
        assert(r@.headers =~= get_of(url@).headers);
    }
    r
}

/// Accepts a status in 200..=299 and turns any other into a fetch failure.
pub fn ensure_success(status: u16) -> (r: Result<(), BbsError>)
    ensures
        is_success(status) ==> r is Ok,
        !is_success(status) ==> r == Err::<(), BbsError>(BbsError::FetchStatus(status)),
{
    if 200 <= status && status <= 299 {
        Ok(())
    } else {
        Err(BbsError::FetchStatus(status))
    }
}

} // verus!
