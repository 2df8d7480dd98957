//! MessagePack of the `rmp_serde` crate, for the three parts of a stored response.

use vstd::prelude::*;
use vstd::utf8::encode_utf8;

verus! {

/// The mathematical content of a list of names and values.
pub open spec fn text_pairs(pairs: Seq<(String, String)>) -> Seq<(Seq<char>, Seq<char>)> {
    pairs.map_values(|p: (String, String)| (p.0@, p.1@))
}

/// The numbers of headers and of body bytes are within the 32 bits that MessagePack has
/// for a length.
pub open spec fn counts_fit(headers: Seq<(Seq<char>, Seq<char>)>, body: Seq<u8>) -> bool {
    headers.len() <= u32::MAX && body.len() <= u32::MAX
}

/// Every length is within the 32 bits that MessagePack has for a length.
pub open spec fn lengths_fit(headers: Seq<(Seq<char>, Seq<char>)>, body: Seq<u8>) -> bool {
    &&& counts_fit(headers, body)
    &&& forall|i: int|
        0 <= i < headers.len() ==> {
            &&& encode_utf8((#[trigger] headers[i]).0).len() <= u32::MAX
            &&& encode_utf8(headers[i].1).len() <= u32::MAX
        }
}

/// What `rmp_serde::to_vec` writes for the triple of status, headers and body.
pub uninterp spec fn packed(
    status: u16,
    headers: Seq<(Seq<char>, Seq<char>)>,
    body: Seq<u8>,
) -> Seq<u8>;

/// What `rmp_serde::from_slice` reads out of `data` as a triple of status, headers and
/// body: the three parts, or nothing where it reports an error.
pub uninterp spec fn unpacked(data: Seq<u8>) -> Option<
    (u16, Seq<(Seq<char>, Seq<char>)>, Seq<u8>),
>;

/// Calls `rmp_serde::to_vec` on the triple: an array of the three parts, which is also
/// what it writes for a structure of three such fields. Where all lengths fit, reading
/// the result back gives the three parts again.
///
/// With more elements than 32 bits can count, its counter overflows, which panics where
/// overflow is checked. It is left unsaid when the call succeeds: it reports an error where
/// memory runs out.
#[verifier::external_body]
pub(crate) fn pack(status: u16, headers: &Vec<(String, String)>, body: &Vec<u8>) -> (data: Option<
    Vec<u8>,
>)
    requires
        headers@.len() <= u32::MAX,
        body@.len() <= u32::MAX,
    ensures
        data matches Some(d) ==> d@ == packed(status, text_pairs(headers@), body@),
        data matches Some(d) ==> (lengths_fit(text_pairs(headers@), body@) ==> unpacked(d@) == Some(
            (status, text_pairs(headers@), body@),
        )),
{
    rmp_serde::to_vec(&(status, headers, body)).ok()
}

/// Calls `rmp_serde::from_slice` for the triple: the outcome is a function of the bytes.
#[verifier::external_body]
pub(crate) fn unpack(data: &[u8]) -> (parts: Option<(u16, Vec<(String, String)>, Vec<u8>)>)
    ensures
        match parts {
            Some(p) => unpacked(data@) == Some((p.0, text_pairs(p.1@), p.2@)),
            None => unpacked(data@) is None,
        },
{
    rmp_serde::from_slice(data).ok()
}

} // verus!
