//! The header map of the `http` crate, as the rest of the library sees it.
//!
//! A map is known here only through [`header_lists`]: for every header name
//! it holds, the values stored under it, in order. Everything this module
//! says about the `http` crate is taken on trust; each item says what it
//! takes.

use http::header::{HeaderMap, HeaderValue};
use vstd::prelude::*;

verus! {

/// `http::HeaderMap`, opaque to the verifier.
#[verifier::external_type_specification]
#[verifier::external_body]
#[verifier::reject_recursive_types(T)]
pub struct ExHeaderMap<T>(HeaderMap<T>);

/// `http::HeaderValue`, opaque to the verifier.
#[verifier::external_type_specification]
#[verifier::external_body]
pub struct ExHeaderValue(HeaderValue);

/// The contents of a header map as a mathematical map: from each name to
/// the values stored under it, first to last.
pub type HeaderLists = Map<Seq<char>, Seq<Seq<u8>>>;

/// What a header map holds: each name in it (lower case, as `http` keeps
/// names), with the values stored under that name, first to last. A name
/// without values is not in the map.
pub uninterp spec fn header_lists(map: HeaderMap<HeaderValue>) -> Map<Seq<char>, Seq<Seq<u8>>>;

/// The bytes of a header value.
pub uninterp spec fn value_bytes(value: HeaderValue) -> Seq<u8>;

/// Number of distinct names below which an insertion never asks the map to
/// grow past the largest table `http` allows (32768 slots).
///
/// The map grows when it is three quarters full, or, once it has met many
/// hash collisions, when it is a fifth full; a table of 32768 slots cannot
/// grow. A fifth of 32768 is above 6553, so a map with fewer names than this
/// always takes one more.
pub const NAME_LIMIT: usize = 4096;

/// A character that may stand in a header name as it is: a lower-case
/// letter, a digit or a hyphen.
pub open spec fn plain_name_char(c: char) -> bool {
    ('a' <= c && c <= 'z') || ('0' <= c && c <= '9') || c == '-'
}

/// A header name that `http` accepts and keeps unchanged: one to 64
/// characters, each a lower-case letter, a digit or a hyphen.
pub open spec fn plain_name(name: Seq<char>) -> bool {
    &&& 1 <= name.len() <= 64
    &&& forall|i: int| 0 <= i < name.len() ==> plain_name_char(#[trigger] name[i])
}

/// Text made of printable ASCII only (space to tilde).
pub open spec fn printable(text: Seq<char>) -> bool {
    forall|i: int| 0 <= i < text.len() ==> ' ' <= #[trigger] text[i] && text[i] <= '~'
}

/// The bytes of printable text: one byte for each character.
pub open spec fn text_bytes(text: Seq<char>) -> Seq<u8> {
    Seq::new(text.len(), |i: int| text[i] as u8)
}

/// The contents of a map without headers.
pub open spec fn no_headers() -> HeaderLists {
    Map::empty()
}

/// The contents hold exactly `n` distinct names.
pub open spec fn has_name_count(lists: HeaderLists, n: nat) -> bool {
    lists.dom().finite() && lists.dom().len() == n
}

/// `HeaderMap::new`: a map that holds nothing.
#[verifier::external_body]
pub(crate) fn empty_map() -> (fresh: HeaderMap<HeaderValue>)
    ensures
        header_lists(fresh) == no_headers(),
{
    HeaderMap::new()
}

/// `HeaderMap::keys_len`: the number of distinct names in the map, which
/// are finitely many.
#[verifier::external_body]
pub(crate) fn name_count(map: &HeaderMap<HeaderValue>) -> (n: usize)
    ensures
        has_name_count(header_lists(*map), n as nat),
{
    map.keys_len()
}

/// `HeaderMap::contains_key` with a string key: whether the map holds a
/// value under that name.
#[verifier::external_body]
pub(crate) fn holds_name(map: &HeaderMap<HeaderValue>, name: &'static str) -> (found: bool)
    requires
        plain_name(name@),
    ensures
        found == header_lists(*map).dom().contains(name@),
{
    map.contains_key(name)
}

/// `HeaderValue::from_static`: a value with the bytes of the given text.
/// The call panics on text that is not visible ASCII, which `requires`
/// leaves out.
#[verifier::external_body]
pub(crate) fn static_value(text: &'static str) -> (value: HeaderValue)
    requires
        printable(text@),
    ensures
        value_bytes(value) == text_bytes(text@),
{
    HeaderValue::from_static(text)
}

/// `HeaderMap::insert` with a static string key: afterwards the name holds
/// the given value and no other, and every other name is as before. The call
/// panics on a name that is no header name and on a map that cannot grow;
/// `requires` leaves both out.
#[verifier::external_body]
pub(crate) fn set_header(map: &mut HeaderMap<HeaderValue>, name: &'static str, value: HeaderValue)
    requires
        plain_name(name@),
        header_lists(*old(map)).dom().finite(),
        header_lists(*old(map)).dom().len() < NAME_LIMIT,
    ensures
        header_lists(*final(map)) == header_lists(*old(map)).insert(
            name@,
            seq![value_bytes(value)],
        ),
{
    map.insert(name, value);
}

} // verus!
