//! Requests and responses, as far as a middleware needs to know them.

use crate::headers::{empty_map, header_lists, no_headers, HeaderLists};
use crate::stamp::{has_room, leaves_room};
use http::header::{HeaderMap, HeaderValue};
use vstd::prelude::*;

verus! {

/// An inbound request: where it is addressed, its headers and its body.
#[derive(Debug)]
pub struct Request {
    pub path: String,
    pub headers: HeaderMap<HeaderValue>,
    pub body: String,
}

/// A request as a mathematical value.
pub struct RequestView {
    pub path: Seq<char>,
    pub headers: HeaderLists,
    pub body: Seq<char>,
}

/// An outbound response: its status code, its headers and its body.
#[derive(Debug)]
pub struct Response {
    pub status: u16,
    pub headers: HeaderMap<HeaderValue>,
    pub body: String,
}

/// A response as a mathematical value.
pub struct ResponseView {
    pub status: u16,
    pub headers: HeaderLists,
    pub body: Seq<char>,
}

impl View for Request {
    type V = RequestView;

    open spec fn view(&self) -> RequestView {
        RequestView { path: self.path@, headers: header_lists(self.headers), body: self.body@ }
    }
}

impl View for Response {
    type V = ResponseView;

    open spec fn view(&self) -> ResponseView {
        ResponseView { status: self.status, headers: header_lists(self.headers), body: self.body@ }
    }
}

impl RequestView {
    /// The headers leave room for the marker header.
    pub open spec fn wf(self) -> bool {
        has_room(self.headers)
    }
}

impl ResponseView {
    /// The headers leave room for the marker header.
    pub open spec fn wf(self) -> bool {
        has_room(self.headers)
    }
}

impl Request {
    /// The headers leave room for the marker header.
    pub open spec fn wf(&self) -> bool {
        self@.wf()
    }

    /// A request to `path` with no headers and the given body.
    pub fn new(path: String, body: String) -> (req: Request)
        ensures
            req@ == (RequestView { path: path@, headers: no_headers(), body: body@ }),
            req.wf(),
    {
        let headers = empty_map();
        assert(no_headers().remove(crate::stamp::marker_name()) =~= no_headers());
        Request { path, headers, body }
    }

    /// Tells whether the request is well formed.
    pub fn is_wf(&self) -> (ok: bool)
        ensures
            ok == self.wf(),
    {
        leaves_room(&self.headers)
    }
}

impl Response {
    /// The headers leave room for the marker header.
    pub open spec fn wf(&self) -> bool {
        self@.wf()
    }

    /// A response with the given status and body, and no headers.
    pub fn new(status: u16, body: String) -> (res: Response)
        ensures
            res@ == (ResponseView { status, headers: no_headers(), body: body@ }),
            res.wf(),
    {
        let headers = empty_map();
        assert(no_headers().remove(crate::stamp::marker_name()) =~= no_headers());
        Response { status, headers, body }
    }

    /// Tells whether the response is well formed.
    pub fn is_wf(&self) -> (ok: bool)
        ensures
            ok == self.wf(),
    {
        leaves_room(&self.headers)
    }
}

} // verus!
