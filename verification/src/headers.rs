//! Request headers.
use axum::http::header::ToStrError;
use axum::http::{HeaderMap, HeaderValue};
use vstd::prelude::*;

use crate::text::{strip_prefix, trimmed};

verus! {

/// `http::HeaderMap`, a multimap from header names to values; what it holds is named by
/// [`first_values`].
#[verifier::external_type_specification]
#[verifier::external_body]
#[verifier::reject_recursive_types(T)]
pub struct ExHeaderMap<T>(axum::http::HeaderMap<T>);

/// `http::HeaderValue`, a string of bytes; the bytes are named by [`value_bytes`].
#[verifier::external_type_specification]
#[verifier::external_body]
pub struct ExHeaderValue(axum::http::HeaderValue);

/// `http::header::ToStrError`, which says that a header value is not visible ASCII.
#[verifier::external_type_specification]
#[verifier::external_body]
pub struct ExToStrError(axum::http::header::ToStrError);

/// The first value of each header that a header map holds, by the header's lower-case name.
pub uninterp spec fn first_values(headers: HeaderMap) -> Map<Seq<char>, Seq<u8>>;

/// The bytes that a header value holds.
pub uninterp spec fn value_bytes(value: HeaderValue) -> Seq<u8>;

/// The bytes that `HeaderValue::to_str` lets through: printable ASCII and the tab.
pub open spec fn is_visible_ascii(bytes: Seq<u8>) -> bool {
    forall|i: int| 0 <= i < bytes.len() ==> 32 <= #[trigger] bytes[i] < 127 || bytes[i] == 9
}

/// ASCII bytes read as text.
pub open spec fn ascii_text(bytes: Seq<u8>) -> Seq<char> {
    bytes.map_values(|b: u8| b as char)
}

/// A header name in the form in which a header map keeps it.
pub open spec fn is_lower_name(name: Seq<char>) -> bool {
    forall|i: int| 0 <= i < name.len() ==> 'a' <= #[trigger] name[i] <= 'z' || name[i] == '-'
}

/// `HeaderMap::get` with the name as a text: the first of the values that the map holds under it.
#[verifier::external_body]
fn get<'a>(headers: &'a HeaderMap, name: &str) -> (res: Option<&'a HeaderValue>)
    requires
        is_lower_name(name@),
    ensures
        match res {
            Some(value) => {
                &&& first_values(*headers).contains_key(name@)
                &&& value_bytes(*value) == first_values(*headers)[name@]
            },
            None => !first_values(*headers).contains_key(name@),
        },
{
    headers.get(name)
}

/// `HeaderValue::to_str` gives the value as a text if it is visible ASCII throughout.
pub assume_specification[ axum::http::HeaderValue::to_str ](value: &HeaderValue) -> (res: Result<
    &str,
    ToStrError,
>)
    ensures
        match res {
            Ok(text) => {
                &&& is_visible_ascii(value_bytes(*value))
                &&& text@ == ascii_text(value_bytes(*value))
            },
            Err(_) => !is_visible_ascii(value_bytes(*value)),
        },
;

/// The text of the first value that the request carries under `name`, if it is visible ASCII.
pub open spec fn header_text(headers: Map<Seq<char>, Seq<u8>>, name: Seq<char>) -> Option<
    Seq<char>,
> {
    if headers.contains_key(name) && is_visible_ascii(headers[name]) {
        Some(ascii_text(headers[name]))
    } else {
        None
    }
}

/// The token of an `authorization` header of the form `Bearer <token>`.
pub open spec fn bearer(headers: Map<Seq<char>, Seq<u8>>) -> Option<Seq<char>> {
    match header_text(headers, "authorization"@) {
        Some(text) if "Bearer "@.is_prefix_of(text) => Some(trimmed(text.skip("Bearer "@.len() as int))),
        _ => None,
    }
}

/// The text of the first value under `name`, if there is one and it is visible ASCII.
pub(crate) fn get_text<'a>(headers: &'a HeaderMap, name: &str) -> (res: Option<&'a str>)
    requires
        is_lower_name(name@),
    ensures
        match res {
            Some(text) => header_text(first_values(*headers), name@) == Some(text@),
            None => header_text(first_values(*headers), name@) is None,
        },
{
    match get(headers, name) {
        Some(value) => match value.to_str() {
            Ok(text) => Some(text),
            Err(_) => None,
        },
        None => None,
    }
}

/// The bearer token that the request carries, without the white space around it.
pub fn bearer_token(headers: &HeaderMap) -> (res: Option<String>)
    ensures
        match res {
            Some(token) => bearer(first_values(*headers)) == Some(token@),
            None => bearer(first_values(*headers)) is None,
        },
{
    proof {
        reveal_strlit("authorization");
    }
    match get_text(headers, "authorization") {
        Some(text) => match strip_prefix(text, "Bearer ") {
            Some(rest) => {
                assert(text@.skip("Bearer "@.len() as int) =~= rest@);
                Some(rest.trim().to_owned())
            },
            None => None,
        },
        None => None,
    }
}

} // verus!
