//! The header map of actix-web, as the rest of the library sees it.
//!
//! actix-web keeps header names and values in the types of the `http` crate
//! and the map in a type of its own. As with the map of `http`, the contents
//! are known only through a name, [`actix_header_lists`], and what is said
//! of actix-web and `http` here is taken on trust.

use crate::headers::{plain_name, value_bytes};
use actix_web::http::header::{HeaderMap, HeaderName, HeaderValue};
use vstd::prelude::*;

verus! {

/// `actix_web::http::header::HeaderMap`, opaque to the verifier.
#[verifier::external_type_specification]
#[verifier::external_body]
pub struct ExActixHeaderMap(HeaderMap);

/// `http::HeaderName`, opaque to the verifier.
#[verifier::external_type_specification]
#[verifier::external_body]
pub struct ExHeaderName(HeaderName);

/// What a header map of actix-web holds: each name in it, in lower case,
/// with the values stored under that name, first to last.
pub uninterp spec fn actix_header_lists(map: HeaderMap) -> Map<Seq<char>, Seq<Seq<u8>>>;

/// The text of a header name, which is in lower case.
pub uninterp spec fn name_text(name: HeaderName) -> Seq<char>;

/// `HeaderName::from_static`: the name with the given text. The call panics
/// on text that is no header name or holds a capital letter, which
/// `requires` leaves out.
#[verifier::external_body]
pub(crate) fn static_name(text: &'static str) -> (name: HeaderName)
    requires
        plain_name(text@),
    ensures
        name_text(name) == text@,
{
    HeaderName::from_static(text)
}

/// `HeaderMap::insert` of actix-web: afterwards the name holds the given
/// value and no other, and every other name is as before.
#[verifier::external_body]
pub(crate) fn actix_set_header(map: &mut HeaderMap, name: HeaderName, value: HeaderValue)
    ensures
        actix_header_lists(*final(map)) == actix_header_lists(*old(map)).insert(
            name_text(name),
            seq![value_bytes(value)],
        ),
{
    map.insert(name, value);
}

} // verus!
