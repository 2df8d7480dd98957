//! Cache keys: the text that identifies a request, and the store key made of it.

use vstd::prelude::*;
use vstd::string::StringExecFns;
use vstd::utf8::encode_utf8;

use crate::foreign::digest::{hex_encode, hex_text, sha256, sha256_digest};

verus! {

/// The three parts of a request that are always in its base key, joined by colons.
pub open spec fn joined(method: Seq<char>, path: Seq<char>, query: Seq<char>) -> Seq<char> {
    method + seq![':'] + path + seq![':'] + query
}

/// The base key of a request whose body hashes to `body_digest`, or has no body to hash.
pub open spec fn base_key_for(
    method: Seq<char>,
    path: Seq<char>,
    query: Seq<char>,
    body_digest: Option<Seq<u8>>,
) -> Seq<char> {
    match body_digest {
        None => joined(method, path, query),
        Some(digest) => joined(method, path, query) + seq![':'] + hex_text(digest),
    }
}

/// What of a request body goes into the base key: its hash, and nothing for an empty one.
pub open spec fn body_digest(body: Seq<u8>) -> Option<Seq<u8>> {
    if body.len() == 0 {
        None
    } else {
        Some(sha256(body))
    }
}

/// The base key of a request, where no function of the user's chooses it.
pub open spec fn standard_base_key(
    method: Seq<char>,
    path: Seq<char>,
    query: Seq<char>,
    body: Seq<u8>,
) -> Seq<char> {
    base_key_for(method, path, query, body_digest(body))
}

/// The key under which a request with this base key is stored.
pub open spec fn store_key(prefix: Seq<char>, base_key: Seq<char>) -> Seq<char> {
    prefix + hex_text(sha256(encode_utf8(base_key)))
}

/// Joins method, path, query string and, where the request has a body, the hexadecimal
/// text of the body's digest by colons.
pub fn join_base_key(
    method: &str,
    path: &str,
    query_string: &str,
    body_digest: Option<&[u8]>,
) -> (key: String)
    requires
        body_digest matches Some(digest) ==> 2 * digest@.len() <= isize::MAX,
    ensures
        key@ == base_key_for(
            method@,
            path@,
            query_string@,
            match body_digest {
                Some(digest) => Some(digest@),
                None => None,
            },
        ),
{
    proof {
        reveal_strlit(":");
        assert(":"@ == seq![':']);
    }
    let mut key = String::from_str(method);
    key.append(":");
    key.append(path);
    key.append(":");
    key.append(query_string);
    if let Some(digest) = body_digest {
        key.append(":");
        key.append(hex_encode(digest).as_str());
    }
    key
}

/// Puts the hexadecimal text of a base key's digest behind the prefix.
pub fn join_store_key(prefix: &str, digest: &[u8]) -> (key: String)
    requires
        2 * digest@.len() <= isize::MAX,
    ensures
        key@ == prefix@ + hex_text(digest@),
{
    let mut key = String::from_str(prefix);
    key.append(hex_encode(digest).as_str());
    key
}

/// The base key of a request: method, path and query string and, where the body is not
/// empty, the hash of the body.
pub fn default_base_key(method: &str, path: &str, query_string: &str, body: &[u8]) -> (key: String)
    ensures
        key@ == standard_base_key(method@, path@, query_string@, body@),
        body@.len() > 0 ==> key@ == method@ + seq![':'] + path@ + seq![':'] + query_string@
            + seq![':'] + hex_text(sha256(body@)),
{
    if body.len() == 0 {
        join_base_key(method, path, query_string, None)
    } else {
        let digest = sha256_digest(body);
        join_base_key(method, path, query_string, Some(digest.as_slice()))
    }
}

/// The key under which a request with this base key is stored: the prefix and the hash of
/// the base key.
pub fn store_key_of(prefix: &str, base_key: &str) -> (key: String)
    ensures
        key@ == store_key(prefix@, base_key@),
        key@.len() == prefix@.len() + 64,
{
    let digest = sha256_digest(base_key.as_bytes());
    join_store_key(prefix, digest.as_slice())
}

} // verus!
