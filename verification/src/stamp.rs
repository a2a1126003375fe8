//! The two marks and the act of stamping one onto a header map.
//!
//! Stamping writes the header `middleware` with a single value. Whatever was
//! stored under that name before is gone afterwards, so stamping twice is
//! the same as stamping once with the later mark.

use crate::actix_headers::{actix_header_lists, actix_set_header, static_name};
use crate::headers::{
    header_lists, holds_name, name_count, printable, set_header, static_value, text_bytes,
    HeaderLists, NAME_LIMIT,
};
use http::header::{HeaderMap, HeaderValue};
use vstd::prelude::*;

verus! {

/// The name of the header that carries the mark.
pub open spec fn marker_name() -> Seq<char> {
    "middleware"@
}

/// The mark a request carries once the middleware has seen it.
pub open spec fn before_mark() -> Seq<u8> {
    text_bytes("before"@)
}

/// The mark a response carries once the middleware has seen it.
pub open spec fn after_mark() -> Seq<u8> {
    text_bytes("after"@)
}

/// The contents after the marker header was written with `mark`: the marker
/// name holds that one value, every other name is untouched.
pub open spec fn stamped(lists: HeaderLists, mark: Seq<u8>) -> HeaderLists {
    lists.insert(marker_name(), seq![mark])
}

/// The contents leave room for the marker header: besides the marker, they
/// hold fewer names than the map can always take, with one to spare.
pub open spec fn has_room(lists: HeaderLists) -> bool {
    &&& lists.dom().finite()
    &&& lists.remove(marker_name()).dom().len() + 1 < NAME_LIMIT
}

/// The two marks differ.
pub proof fn lemma_marks_differ()
    ensures
        before_mark() != after_mark(),
        seq![before_mark()] != seq![after_mark()],
{
    reveal_strlit("before");
    reveal_strlit("after");
    assert(before_mark()[0] == 98u8);
    assert(after_mark()[0] == 97u8);
    assert(seq![before_mark()][0] == before_mark());
    assert(seq![after_mark()][0] == after_mark());
}

/// Stamping forgets what the marker held before: a second stamp replaces the
/// first, whatever the first was.
pub proof fn lemma_last_stamp_wins(lists: HeaderLists, first: Seq<u8>, second: Seq<u8>)
    ensures
        stamped(stamped(lists, first), second) == stamped(lists, second),
{
    assert(stamped(stamped(lists, first), second) =~= stamped(lists, second));
}

/// Stamping neither uses up room nor frees any.
pub proof fn lemma_stamp_keeps_room(lists: HeaderLists, mark: Seq<u8>)
    ensures
        has_room(stamped(lists, mark)) == has_room(lists),
{
    assert(stamped(lists, mark).remove(marker_name()) =~= lists.remove(marker_name()));
    assert(stamped(lists, mark).dom() =~= lists.dom().insert(marker_name()));
    if stamped(lists, mark).dom().finite() {
        assert(lists.dom() =~= if lists.dom().contains(marker_name()) {
            stamped(lists, mark).dom()
        } else {
            stamped(lists, mark).dom().remove(marker_name())
        });
    }
}

/// Contents with room hold fewer names than the limit.
proof fn lemma_room_bounds_names(lists: HeaderLists)
    requires
        has_room(lists),
    ensures
        lists.dom().len() < NAME_LIMIT,
{
    assert(lists.remove(marker_name()).dom() =~= lists.dom().remove(marker_name()));
}

/// Tells whether a header map leaves room for the marker header.
pub fn leaves_room(map: &HeaderMap<HeaderValue>) -> (room: bool)
    ensures
        room == has_room(header_lists(*map)),
{
    proof {
        reveal_strlit("middleware");
        assert(header_lists(*map).remove(marker_name()).dom() =~= header_lists(*map).dom().remove(
            marker_name(),
        ));
    }
    let names: usize = name_count(map);
    if holds_name(map, "middleware") {
        names < NAME_LIMIT
    } else {
        names < NAME_LIMIT - 1
    }
}

/// Writes the marker header with the given mark.
fn stamp(map: &mut HeaderMap<HeaderValue>, mark: &'static str)
    requires
        has_room(header_lists(*old(map))),
        printable(mark@),
    ensures
        header_lists(*final(map)) == stamped(header_lists(*old(map)), text_bytes(mark@)),
{
    proof {
        reveal_strlit("middleware");
        lemma_room_bounds_names(header_lists(*map));
    }
    let value = static_value(mark);
    set_header(map, "middleware", value);
}

/// Writes the marker header with the given mark into a map of actix-web.
fn stamp_actix(map: &mut actix_web::http::header::HeaderMap, mark: &'static str)
    requires
        printable(mark@),
    ensures
        actix_header_lists(*final(map)) == stamped(
            actix_header_lists(*old(map)),
            text_bytes(mark@),
        ),
{
    proof {
        reveal_strlit("middleware");
    }
    let name = static_name("middleware");
    let value = static_value(mark);
    actix_set_header(map, name, value);
}

/// Marks the headers of a request: writes `middleware: before`, in place of
/// whatever the name held.
pub fn stamp_before(map: &mut HeaderMap<HeaderValue>)
    requires
        has_room(header_lists(*old(map))),
    ensures
        header_lists(*final(map)) == stamped(header_lists(*old(map)), before_mark()),
{
    proof {
        reveal_strlit("before");
    }
    stamp(map, "before");
}

/// Marks the headers of a response: writes `middleware: after`, in place of
/// whatever the name held.
pub fn stamp_after(map: &mut HeaderMap<HeaderValue>)
    requires
        has_room(header_lists(*old(map))),
    ensures
        header_lists(*final(map)) == stamped(header_lists(*old(map)), after_mark()),
{
    proof {
        reveal_strlit("after");
    }
    stamp(map, "after");
}

/// Marks the headers of a request of actix-web: writes `middleware: before`,
/// in place of whatever the name held.
pub fn stamp_before_actix(map: &mut actix_web::http::header::HeaderMap)
    ensures
        actix_header_lists(*final(map)) == stamped(actix_header_lists(*old(map)), before_mark()),
{
    proof {
        reveal_strlit("before");
    }
    stamp_actix(map, "before");
}

/// Marks the headers of a response of actix-web: writes `middleware: after`,
/// in place of whatever the name held.
pub fn stamp_after_actix(map: &mut actix_web::http::header::HeaderMap)
    ensures
        actix_header_lists(*final(map)) == stamped(actix_header_lists(*old(map)), after_mark()),
{
    proof {
        reveal_strlit("after");
    }
    stamp_actix(map, "after");
}

} // verus!
