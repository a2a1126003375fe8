//! The middleware: a handler wrapped around another handler.
//!
//! [`SayHiMiddleware`] marks the request, hands it to the handler inside,
//! and marks the response that comes back. An error from inside passes
//! through untouched. The middleware keeps no state.
//!
//! What counts as an error is the handler's choice: a handler that turns a
//! request down by returning `Err` gets its error back unmarked, while one
//! that answers with a response of status 400 gets that response marked like
//! any other.

use crate::message::{Request, RequestView, Response, ResponseView};
use crate::stamp::{
    after_mark, before_mark, lemma_stamp_keeps_room, stamp_after, stamp_before, stamped,
};
use vstd::prelude::*;

verus! {

/// What a handler returned, with the response taken as a mathematical value.
pub open spec fn outcome_view<E>(out: Result<Response, E>) -> Result<ResponseView, E> {
    match out {
        Ok(res) => Ok(res@),
        Err(e) => Err(e),
    }
}

/// Something that takes a request and answers with a response or an error.
///
/// A handler need not be a function of the request: `answers` is a relation,
/// and says which outcomes the handler may give to which request. A handler
/// that does not say which is taken to allow any outcome.
pub trait Handler {
    /// How the handler fails.
    type Error;

    /// Whether `out` is an outcome this handler may give to `req`.
    open spec fn answers(&self, req: RequestView, out: Result<ResponseView, Self::Error>) -> bool {
        true
    }

    /// Handles one request.
    fn call(&self, req: Request) -> (out: Result<Response, Self::Error>)
        requires
            req.wf(),
        ensures
            self.answers(req@, outcome_view(out)),
            out matches Ok(res) ==> res.wf(),
    ;
}

/// The request as the handler inside sees it: marked `before`, otherwise
/// unchanged.
pub open spec fn marked_request(req: RequestView) -> RequestView {
    RequestView { headers: stamped(req.headers, before_mark()), ..req }
}

/// The response as the caller sees it: marked `after`, otherwise unchanged.
pub open spec fn marked_response(res: ResponseView) -> ResponseView {
    ResponseView { headers: stamped(res.headers, after_mark()), ..res }
}

/// The outcome as the caller sees it: a response is marked, an error is
/// handed on as it is.
pub open spec fn marked_outcome<E>(inner: Result<ResponseView, E>) -> Result<ResponseView, E> {
    match inner {
        Ok(res) => Ok(marked_response(res)),
        Err(e) => Err(e),
    }
}

/// Marks a request before it is forwarded.
pub fn mark_request(req: Request) -> (marked: Request)
    requires
        req.wf(),
    ensures
        marked@ == marked_request(req@),
        marked.wf(),
{
    let mut req = req;
    proof {
        lemma_stamp_keeps_room(req@.headers, before_mark());
    }
    stamp_before(&mut req.headers);
    req
}

/// Marks what the handler inside returned: a response gets the mark
/// `after`, an error is returned as it came.
pub fn mark_outcome<E>(inner: Result<Response, E>) -> (out: Result<Response, E>)
    requires
        inner matches Ok(res) ==> res.wf(),
    ensures
        outcome_view(out) == marked_outcome(outcome_view(inner)),
        inner matches Err(e) ==> out == Err::<Response, E>(e),
        out matches Ok(res) ==> res.wf(),
{
    match inner {
        Ok(res) => {
            let mut res = res;
            proof {
                lemma_stamp_keeps_room(res@.headers, after_mark());
            }
            stamp_after(&mut res.headers);
            Ok(res)
        },
        Err(e) => Err(e),
    }
}

/// The factory of the middleware: wraps a handler into a
/// [`SayHiMiddleware`].
#[derive(Clone, Copy)]
pub struct SayHi;

/// A handler that marks what passes through it on the way to and from the
/// handler inside.
#[derive(Clone)]
pub struct SayHiMiddleware<S> {
    pub inner: S,
}

impl SayHi {
    /// Wraps `inner`.
    pub fn layer<S>(&self, inner: S) -> (wrapped: SayHiMiddleware<S>)
        ensures
            wrapped.inner == inner,
    {
        SayHiMiddleware { inner }
    }

    /// Wraps `service`. Wrapping cannot fail.
    pub fn new_transform<S>(&self, service: S) -> (made: Result<SayHiMiddleware<S>, ()>)
        ensures
            made == Ok::<SayHiMiddleware<S>, ()>(SayHiMiddleware { inner: service }),
    {
        Ok(SayHiMiddleware { inner: service })
    }
}

impl<S: Handler> Handler for SayHiMiddleware<S> {
    type Error = S::Error;

    /// The middleware may give `out` to `req` exactly when the handler
    /// inside may give some outcome to the marked request, and `out` is that
    /// outcome, marked.
    open spec fn answers(&self, req: RequestView, out: Result<ResponseView, S::Error>) -> bool {
        exists|inner: Result<ResponseView, S::Error>| #[trigger]
            self.inner.answers(marked_request(req), inner) && out == marked_outcome(inner)
    }

    fn call(&self, req: Request) -> (out: Result<Response, S::Error>) {
        let marked = mark_request(req);
        let inner = self.inner.call(marked);
        let out = mark_outcome(inner);
        proof {
            assert(self.inner.answers(marked_request(req@), outcome_view(inner)));
        }
        out
    }
}

} // verus!
