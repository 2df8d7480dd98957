//! Header maps, header values and status codes, as `actix_web` hands them on.

use actix_web::http::header::{HeaderMap, HeaderValue, TryIntoHeaderPair};
use actix_web::http::StatusCode;
use vstd::prelude::*;
use vstd::utf8::encode_utf8;

use crate::foreign::text::ascii_lower;

verus! {

/// A multi-map of header names to values.
#[verifier::external_type_specification]
#[verifier::external_body]
pub struct ExHeaderMap(actix_web::http::header::HeaderMap);

/// What a header map holds: for each name, in lower case, its values in the order in
/// which they were added.
pub uninterp spec fn header_fields(headers: HeaderMap) -> Map<Seq<char>, Seq<Seq<u8>>>;

/// What an empty header map holds.
pub open spec fn no_fields() -> Map<Seq<char>, Seq<Seq<u8>>> {
    Map::empty()
}

/// The values that `fields` holds under `name`; none where the name is absent.
pub open spec fn values_in(fields: Map<Seq<char>, Seq<Seq<u8>>>, name: Seq<char>) -> Seq<Seq<u8>> {
    if fields.contains_key(name) {
        fields[name]
    } else {
        Seq::empty()
    }
}

/// The mathematical content of a list of names and raw values.
pub open spec fn raw_pairs(pairs: Seq<(String, Vec<u8>)>) -> Seq<(Seq<char>, Seq<u8>)> {
    pairs.map_values(|p: (String, Vec<u8>)| (p.0@, p.1@))
}

/// The values that stand in `pairs` under `name`, in order.
pub open spec fn values_for<V>(pairs: Seq<(Seq<char>, V)>, name: Seq<char>) -> Seq<V> {
    pairs.filter(|p: (Seq<char>, V)| p.0 == name).map_values(|p: (Seq<char>, V)| p.1)
}

/// A character that a header name may hold.
pub open spec fn is_name_char(c: char) -> bool {
    ||| '!' <= c && c <= '\''
    ||| c == '*' || c == '+' || c == '-' || c == '.'
    ||| '0' <= c && c <= '9'
    ||| 'A' <= c && c <= 'Z'
    ||| '^' <= c && c <= 'z'
    ||| c == '|' || c == '~'
}

/// A text that is accepted as a header name.
pub open spec fn is_header_name(name: Seq<char>) -> bool {
    &&& 0 < name.len() <= 65535
    &&& forall|i: int| 0 <= i < name.len() ==> is_name_char(#[trigger] name[i])
}

/// A header name in the form in which header maps keep it.
pub open spec fn is_stored_name(name: Seq<char>) -> bool {
    is_header_name(name) && ascii_lower(name) == name
}

/// A text that is accepted as a header value: no control character but the tab.
pub open spec fn is_header_value(value: Seq<char>) -> bool {
    forall|i: int|
        0 <= i < value.len() ==> (#[trigger] value[i] >= ' ' && value[i] != '\u{7f}') || value[i]
            == '\t'
}

/// A byte that stands for a visible ASCII character, the blank or the tab.
pub open spec fn is_visible_ascii(b: u8) -> bool {
    32 <= b < 127 || b == 9
}

/// The text of a raw header value, where every byte of it is visible ASCII.
pub open spec fn visible_text(value: Seq<u8>) -> Option<Seq<char>> {
    if forall|i: int| 0 <= i < value.len() ==> is_visible_ascii(#[trigger] value[i]) {
        Some(value.map_values(|b: u8| b as char))
    } else {
        None
    }
}

/// `HeaderMap::new`: an empty map.
pub assume_specification[ HeaderMap::new ]() -> (headers: HeaderMap)
    ensures
        header_fields(headers) == no_fields(),
;

/// Calls `HeaderMap::get`: the first value under the name, whatever the letter case in
/// which it is given, and nothing where there is none or the text is no header name.
#[verifier::external_body]
pub(crate) fn header_get(headers: &HeaderMap, name: &str) -> (value: Option<Vec<u8>>)
    ensures
        match value {
            Some(v) => {
                &&& header_fields(*headers).contains_key(ascii_lower(name@))
                &&& header_fields(*headers)[ascii_lower(name@)].len() > 0
                &&& v@ == header_fields(*headers)[ascii_lower(name@)][0]
            },
            None => !header_fields(*headers).contains_key(ascii_lower(name@)),
        },
{
    headers.get(name).map(|v| v.as_bytes().to_vec())
}

/// Calls `HeaderMap::iter`: every name with each of its values. Which name comes first is
/// left open; the values of one name come in the order in which they were added. Names
/// are valid and in lower case.
#[verifier::external_body]
pub(crate) fn header_pairs(headers: &HeaderMap) -> (pairs: Vec<(String, Vec<u8>)>)
    ensures
        forall|name: Seq<char>| #[trigger]
            values_for(raw_pairs(pairs@), name) == values_in(header_fields(*headers), name),
        forall|i: int| 0 <= i < pairs@.len() ==> is_stored_name((#[trigger] pairs@[i]).0@),
{
    headers.iter().map(|(n, v)| (n.as_str().to_string(), v.as_bytes().to_vec())).collect()
}

/// Calls `HeaderMap::insert` on the pair that `TryIntoHeaderPair` makes of the two texts:
/// the value replaces all that stood under the name. False, with the map as it was, where
/// one of the texts is not accepted.
#[verifier::external_body]
pub(crate) fn header_insert(headers: &mut HeaderMap, name: &str, value: &str) -> (accepted: bool)
    ensures
        accepted == (is_header_name(name@) && is_header_value(value@)),
        accepted ==> header_fields(*final(headers)) == header_fields(*old(headers)).insert(
            ascii_lower(name@),
            seq![encode_utf8(value@)],
        ),
        !accepted ==> header_fields(*final(headers)) == header_fields(*old(headers)),
{
    match (name, value).try_into_pair() {
        Ok((n, v)) => {
            headers.insert(n, v);
            true
        },
        Err(_) => false,
    }
}

/// Calls `HeaderValue::to_str` on the header value with these bytes: the text, where all
/// of them are visible ASCII, blanks or tabs.
#[verifier::external_body]
pub(crate) fn header_value_text(value: &[u8]) -> (text: Option<String>)
    ensures
        match text {
            Some(t) => visible_text(value@) == Some(t@),
            None => visible_text(value@) is None,
        },
{
    let value = HeaderValue::from_bytes(value).ok()?;
    value.to_str().ok().map(|t| t.to_string())
}

/// Calls `StatusCode::is_success` on the status with this number: 200 to 299. A number
/// that is no status code is no success.
#[verifier::external_body]
pub(crate) fn status_is_success(code: u16) -> (success: bool)
    ensures
        success == (200 <= code <= 299),
{
    match StatusCode::from_u16(code) {
        Ok(status) => status.is_success(),
        Err(_) => false,
    }
}

/// Calls `StatusCode::from_u16`: the numbers 100 to 999 are status codes.
#[verifier::external_body]
pub(crate) fn status_from_u16(code: u16) -> (status: Option<u16>)
    ensures
        status == if 100 <= code <= 999 {
            Some(code)
        } else {
            None
        },
{
    StatusCode::from_u16(code).ok().map(|s| s.as_u16())
}

} // verus!
