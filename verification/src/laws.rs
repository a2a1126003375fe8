//! What holds of the middleware around any handler.

use crate::message::{RequestView, ResponseView};
use crate::middleware::{marked_outcome, marked_request, Handler, SayHiMiddleware};
use crate::stamp::{
    after_mark, before_mark, lemma_last_stamp_wins, lemma_marks_differ, marker_name, stamped,
};
use vstd::prelude::*;

verus! {

/// Whatever the request carried under the marker name, and whatever the
/// handler inside did with it, a response that leaves the middleware holds
/// the marker exactly once, with the value `after`; all that the handler
/// inside returned besides is as it returned it.
pub proof fn law_response_marked_once<S: Handler>(
    mw: SayHiMiddleware<S>,
    req: RequestView,
    out: Result<ResponseView, S::Error>,
)
    requires
        mw.answers(req, out),
        out is Ok,
    ensures
        out->Ok_0.headers.dom().contains(marker_name()),
        out->Ok_0.headers[marker_name()] == seq![after_mark()],
        out->Ok_0.headers[marker_name()].len() == 1,
        out->Ok_0.headers[marker_name()] != seq![before_mark()],
        exists|inner: ResponseView|
            {
                &&& #[trigger] mw.inner.answers(marked_request(req), Ok(inner))
                &&& out->Ok_0.status == inner.status
                &&& out->Ok_0.body == inner.body
                &&& out->Ok_0.headers.remove(marker_name()) == inner.headers.remove(marker_name())
            },
{
    lemma_marks_differ();
    let mid = choose|mid: Result<ResponseView, S::Error>| #[trigger]
        mw.inner.answers(marked_request(req), mid) && out == marked_outcome(mid);
    let inner = mid->Ok_0;
    assert(mid == Ok::<ResponseView, S::Error>(inner));
    assert(out->Ok_0.headers.remove(marker_name()) =~= inner.headers.remove(marker_name()));
}

/// Around a handler that answers every request with the request's own
/// headers, a request without the marker header comes back with the marker
/// valued `after`, not `before`, and with every other header it had: the
/// mark on the response replaces the mark on the request.
pub proof fn law_echo_ends_after<S: Handler>(
    mw: SayHiMiddleware<S>,
    req: RequestView,
    out: Result<ResponseView, S::Error>,
)
    requires
        forall|r: RequestView, o: Result<ResponseView, S::Error>| #[trigger]
            mw.inner.answers(r, o) ==> o is Ok && o->Ok_0.headers == r.headers,
        !req.headers.dom().contains(marker_name()),
        mw.answers(req, out),
    ensures
        out is Ok,
        out->Ok_0.headers == stamped(req.headers, after_mark()),
        out->Ok_0.headers[marker_name()] == seq![after_mark()],
        out->Ok_0.headers[marker_name()] != seq![before_mark()],
        out->Ok_0.headers.remove(marker_name()) == req.headers,
{
    lemma_marks_differ();
    lemma_last_stamp_wins(req.headers, before_mark(), after_mark());
    assert(stamped(req.headers, after_mark()).remove(marker_name()) =~= req.headers);
}

/// A request that already carries `middleware: before` still ends, around
/// any handler, in a response with the marker exactly once, valued `after`;
/// and the handler inside saw the request just as the caller sent it.
pub proof fn law_marked_request_ends_after<S: Handler>(
    mw: SayHiMiddleware<S>,
    req: RequestView,
    out: Result<ResponseView, S::Error>,
)
    requires
        req.headers.dom().contains(marker_name()),
        req.headers[marker_name()] == seq![before_mark()],
        mw.answers(req, out),
        out is Ok,
    ensures
        marked_request(req) == req,
        out->Ok_0.headers[marker_name()] == seq![after_mark()],
        out->Ok_0.headers[marker_name()].len() == 1,
{
    assert(stamped(req.headers, before_mark()) =~= req.headers);
}

/// Where the handler inside can only fail on the marked request, the
/// middleware fails, and with an error that the handler inside gave: the
/// error is neither replaced nor turned into a response.
pub proof fn law_inner_error_passes<S: Handler>(
    mw: SayHiMiddleware<S>,
    req: RequestView,
    out: Result<ResponseView, S::Error>,
)
    requires
        forall|o: Result<ResponseView, S::Error>| #[trigger]
            mw.inner.answers(marked_request(req), o) ==> o is Err,
        mw.answers(req, out),
    ensures
        out is Err,
        mw.inner.answers(marked_request(req), out),
{
    let mid = choose|mid: Result<ResponseView, S::Error>| #[trigger]
        mw.inner.answers(marked_request(req), mid) && out == marked_outcome(mid);
    assert(mid is Err);
    assert(out == mid);
}

/// The middleware has no failure of its own: where it fails, the handler
/// inside failed on the marked request, with that very error.
pub proof fn law_no_error_of_its_own<S: Handler>(
    mw: SayHiMiddleware<S>,
    req: RequestView,
    out: Result<ResponseView, S::Error>,
)
    requires
        mw.answers(req, out),
        out is Err,
    ensures
        mw.inner.answers(marked_request(req), out),
{
    let mid = choose|mid: Result<ResponseView, S::Error>| #[trigger]
        mw.inner.answers(marked_request(req), mid) && out == marked_outcome(mid);
    assert(out == mid);
}

/// An error of the handler inside is an outcome of the middleware, as it is.
pub proof fn law_error_is_handed_on<S: Handler>(
    mw: SayHiMiddleware<S>,
    req: RequestView,
    e: S::Error,
)
    requires
        mw.inner.answers(marked_request(req), Err(e)),
    ensures
        mw.answers(req, Err(e)),
{
    assert(marked_outcome(Err::<ResponseView, S::Error>(e)) == Err::<ResponseView, S::Error>(e));
}

/// The middleware wrapped twice behaves as the middleware wrapped once: the
/// handler inside sees the request marked `before`, and the response leaves
/// with the marker exactly once, valued `after`.
pub proof fn law_stacking_collapses<S: Handler>(
    outer: SayHiMiddleware<SayHiMiddleware<S>>,
    req: RequestView,
    out: Result<ResponseView, S::Error>,
)
    ensures
        outer.answers(req, out) <==> outer.inner.answers(req, out),
        outer.answers(req, out) && out is Ok ==> out->Ok_0.headers[marker_name()] == seq![
            after_mark(),
        ],
{
    lemma_last_stamp_wins(req.headers, before_mark(), before_mark());
    assert(marked_request(marked_request(req)) == marked_request(req));
    assert forall|mid: Result<ResponseView, S::Error>|
        marked_outcome(marked_outcome(mid)) == #[trigger] marked_outcome(mid) by {
        if let Ok(res) = mid {
            lemma_last_stamp_wins(res.headers, after_mark(), after_mark());
        }
    }
    if outer.answers(req, out) {
        let mid = choose|mid: Result<ResponseView, S::Error>| #[trigger]
            outer.inner.answers(marked_request(req), mid) && out == marked_outcome(mid);
        let low = choose|low: Result<ResponseView, S::Error>| #[trigger]
            outer.inner.inner.answers(marked_request(marked_request(req)), low) && mid
                == marked_outcome(low);
        assert(outer.inner.inner.answers(marked_request(req), low));
        assert(out == marked_outcome(low));
        assert(outer.inner.answers(req, out));
    }
    if outer.inner.answers(req, out) {
        let low = choose|low: Result<ResponseView, S::Error>| #[trigger]
            outer.inner.inner.answers(marked_request(req), low) && out == marked_outcome(low);
        assert(outer.inner.inner.answers(marked_request(marked_request(req)), low));
        assert(outer.inner.answers(marked_request(req), out));
        assert(marked_outcome(out) == out);
        assert(outer.answers(req, out));
    }
}

} // verus!
