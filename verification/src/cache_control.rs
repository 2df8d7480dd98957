//! `Cache-Control`: which requests pass by the cache, and which responses stay out of it.

use actix_web::http::header::HeaderMap;
use vstd::prelude::*;

use crate::foreign::header::{
    header_fields, header_get, header_pairs, header_value_text, raw_pairs, values_for, values_in,
    visible_text,
};
use crate::foreign::text::{ascii_lower, occurs_in, text_contains};
use crate::record::{lemma_values_for_empty, lemma_values_for_step};

verus! {

/// A raw `Cache-Control` value forbids caching: it is plain text and holds one of the two
/// words.
pub open spec fn value_forbids_caching(value: Seq<u8>) -> bool {
    match visible_text(value) {
        Some(text) => occurs_in("no-cache"@, text) || occurs_in("no-store"@, text),
        None => false,
    }
}

/// One of the values forbids caching.
pub open spec fn some_forbids_caching(values: Seq<Seq<u8>>) -> bool {
    exists|i: int| 0 <= i < values.len() && value_forbids_caching(#[trigger] values[i])
}

/// The header fields of a request forbid that it is answered from or recorded in a cache:
/// the first `Cache-Control` does.
pub open spec fn forbids_caching(fields: Map<Seq<char>, Seq<Seq<u8>>>) -> bool {
    let values = values_in(fields, "cache-control"@);
    values.len() > 0 && value_forbids_caching(values[0])
}

/// The header fields of a response forbid that it is stored: any `Cache-Control` does.
pub open spec fn forbids_storing(fields: Map<Seq<char>, Seq<Seq<u8>>>) -> bool {
    some_forbids_caching(values_in(fields, "cache-control"@))
}

/// The raw `Cache-Control` value forbids caching.
pub fn denies_caching(value: &[u8]) -> (denies: bool)
    ensures
        denies == value_forbids_caching(value@),
{
    match header_value_text(value) {
        None => false,
        Some(text) => text_contains(text.as_str(), "no-cache") || text_contains(
            text.as_str(),
            "no-store",
        ),
    }
}

/// The request forbids that it is answered from or recorded in a cache.
pub fn skips_cache(headers: &HeaderMap) -> (skips: bool)
    ensures
        skips == forbids_caching(header_fields(*headers)),
{
    proof {
        reveal_strlit("Cache-Control");
        reveal_strlit("cache-control");
        assert(ascii_lower("Cache-Control"@) =~= "cache-control"@);
    }
    match header_get(headers, "Cache-Control") {
        None => false,
        Some(value) => denies_caching(value.as_slice()),
    }
}

/// One of the values that stand in the list under `cache-control` forbids caching.
pub fn some_denies_caching(raw: &Vec<(String, Vec<u8>)>) -> (denies: bool)
    ensures
        denies == some_forbids_caching(values_for(raw_pairs(raw@), "cache-control"@)),
{
    let ghost name = "cache-control"@;
    let ghost pairs = raw_pairs(raw@);
    let wanted = String::from("cache-control");
    let mut denies = false;
    let mut i: usize = 0;
    proof {
        lemma_values_for_empty(pairs.take(0), name);
    }
    while i < raw.len()
        invariant
            i <= raw@.len(),
            name == "cache-control"@,
            wanted@ == name,
            pairs == raw_pairs(raw@),
            denies == some_forbids_caching(values_for(pairs.take(i as int), name)),
        decreases raw@.len() - i,
    {
        let hit = raw[i].0 == wanted && denies_caching(raw[i].1.as_slice());
        proof {
            let next = pairs.take(i + 1);
            let before = values_for(pairs.take(i as int), name);
            assert(next.drop_last() =~= pairs.take(i as int));
            assert(next.last() == (raw@[i as int].0@, raw@[i as int].1@));
            lemma_values_for_step(next, name);
            if raw@[i as int].0@ == name {
                lemma_some_forbids_push(before, raw@[i as int].1@);
            }
        }
        denies = denies || hit;
        i += 1;
    }
    assert(pairs.take(i as int) =~= pairs);
    denies
}

/// One more value adds its own verdict.
proof fn lemma_some_forbids_push(values: Seq<Seq<u8>>, value: Seq<u8>)
    ensures
        some_forbids_caching(values.push(value)) == (some_forbids_caching(values)
            || value_forbids_caching(value)),
{
    let more = values.push(value);
    if some_forbids_caching(values) {
        let i = choose|i: int|
            0 <= i < values.len() && value_forbids_caching(#[trigger] values[i]);
        assert(value_forbids_caching(more[i]));
    }
    if value_forbids_caching(value) {
        assert(value_forbids_caching(more[values.len() as int]));
    }
    if some_forbids_caching(more) {
        let i = choose|i: int| 0 <= i < more.len() && value_forbids_caching(#[trigger] more[i]);
        if i < values.len() {
            assert(value_forbids_caching(values[i]));
        }
    }
}

/// The response forbids that it is stored.
pub fn stays_out_of_cache(headers: &HeaderMap) -> (stays_out: bool)
    ensures
        stays_out == forbids_storing(header_fields(*headers)),
{
    let raw = header_pairs(headers);
    assert(values_for(raw_pairs(raw@), "cache-control"@) == values_in(
        header_fields(*headers),
        "cache-control"@,
    ));
    some_denies_caching(&raw)
}

} // verus!
