//! What the operations do, stated of their arguments and results.
//!
//! Each law takes calls of the library's functions, with what went in and what came out,
//! and says how the two are related: in texts, bytes and header fields, and in what the
//! foreign functions give for them.

use actix_web::http::header::HeaderMap;
use actix_web::web::Bytes;
use redis::aio::MultiplexedConnection;
use serde_json::Value;
use vstd::prelude::*;
use vstd::utf8::{encode_utf8, is_ascii_chars};

use crate::cache_control::{
    denies_caching, forbids_caching, forbids_storing, skips_cache, some_denies_caching,
    some_forbids_caching, stays_out_of_cache, value_forbids_caching,
};
use crate::context::{parse_body, value_or_null, CacheContext};
use crate::foreign::bytes::{buffer_of, bytes_of};
use crate::foreign::digest::{hex_text, sha256};
use crate::foreign::header::{
    header_fields, is_header_name, is_header_value, is_name_char, is_stored_name, raw_pairs,
    values_for, values_in, visible_text,
};
use crate::foreign::json::{json_value, null_text};
use crate::foreign::msgpack::{lengths_fit, packed, text_pairs, unpacked};
use crate::foreign::text::{ascii_lower, lowercase, occurs_in};
use crate::keys::{
    default_base_key, join_base_key, join_store_key, standard_base_key, store_key_of,
};
use crate::laws::{
    law_hex_text_injective, law_visible_value_is_kept, lemma_equal_tails,
    lemma_record_is_reproduced,
};
use crate::lookup::{
    begins, context_of, Admission, AwaitConnection, AwaitDecoded, AwaitEntry, RequestHead, Turn,
};
use crate::middleware::{
    RedisCacheMiddleware, RedisCacheMiddlewareBuilder, RedisCacheMiddlewareService,
};
use crate::payload::{item_bytes, stream_bytes, PayloadReader};
use crate::record::{
    keep_headers, kept_pairs, lemma_values_for_empty, lemma_values_for_step,
    names_transfer_header, stored_headers, stored_value, stored_values, CacheableBody,
    PendingResponse, StoreWrite, UnconnectedWrite, WriteTurn,
};
use crate::reply::{all_acceptable, answers, is_acceptable, replayed, CachedResponse, Reply};

verus! {

// ---------------------------------------------------------------------------
// Keys

/// Without a body, the default base key is method, path and query string, with a colon
/// after each of the first two; a body adds a colon and the hexadecimal text of the hash
/// of all of its bytes.
pub proof fn law_default_base_key(
    method: &str,
    path: &str,
    query: &str,
    body: &[u8],
    key: String,
)
    requires
        call_ensures(default_base_key, (method, path, query, body), key),
    ensures
        body@.len() == 0 ==> key@ == method@ + seq![':'] + path@ + seq![':'] + query@,
        body@.len() > 0 ==> key@ == method@ + seq![':'] + path@ + seq![':'] + query@ + seq![':']
            + hex_text(sha256(body@)),
{
}

/// The standard base key of a request without a body, and with one.
pub proof fn law_standard_base_key(
    method: Seq<char>,
    path: Seq<char>,
    query: Seq<char>,
    body: Seq<u8>,
)
    ensures
        body.len() == 0 ==> standard_base_key(method, path, query, body) == method + seq![':']
            + path + seq![':'] + query,
        body.len() > 0 ==> standard_base_key(method, path, query, body) == method + seq![':'] + path
            + seq![':'] + query + seq![':'] + hex_text(sha256(body)),
{
}

/// Of one method, path and query string, two requests with bodies have the same default
/// base key exactly when the two whole bodies have the same hash; a request with a body and
/// one without never do.
pub proof fn law_whole_body_is_in_the_key(
    method: &str,
    path: &str,
    query: &str,
    body1: &[u8],
    body2: &[u8],
    key1: String,
    key2: String,
)
    requires
        call_ensures(default_base_key, (method, path, query, body1), key1),
        call_ensures(default_base_key, (method, path, query, body2), key2),
    ensures
        body1@.len() > 0 && body2@.len() > 0 ==> (key1@ == key2@ <==> sha256(body1@) == sha256(
            body2@,
        )),
        body1@.len() > 0 && body2@.len() == 0 ==> key1@ != key2@,
{
    let head = method@ + seq![':'] + path@ + seq![':'] + query@;
    if body1@.len() > 0 && body2@.len() > 0 && key1@ == key2@ {
        let (x, y) = (hex_text(sha256(body1@)), hex_text(sha256(body2@)));
        assert(key1@ == (head + seq![':']) + x);
        assert(key2@ == (head + seq![':']) + y);
        assert(key1@.len() == head.len() + 1 + x.len());
        assert(key2@.len() == head.len() + 1 + y.len());
        lemma_equal_tails(head + seq![':'], x, head + seq![':'], y);
        law_hex_text_injective(sha256(body1@), sha256(body2@));
    }
    if body1@.len() > 0 && body2@.len() == 0 {
        assert(key1@.len() > head.len());
    }
}

/// Requests that differ only in the method, only in the path, or only in the query string
/// have different default base keys.
pub proof fn law_each_part_is_in_the_key(
    method: &str,
    path: &str,
    query: &str,
    other: &str,
    body: &[u8],
    key: String,
    by_method: String,
    by_path: String,
    by_query: String,
)
    requires
        call_ensures(default_base_key, (method, path, query, body), key),
        call_ensures(default_base_key, (other, path, query, body), by_method),
        call_ensures(default_base_key, (method, other, query, body), by_path),
        call_ensures(default_base_key, (method, path, other, body), by_query),
    ensures
        key@ == by_method@ <==> method@ == other@,
        key@ == by_path@ <==> path@ == other@,
        key@ == by_query@ <==> query@ == other@,
{
    let tail = if body@.len() == 0 {
        Seq::<char>::empty()
    } else {
        seq![':'] + hex_text(sha256(body@))
    };
    let c = seq![':'];
    assert(key@ =~= method@ + (c + path@ + c + query@ + tail));
    assert(by_method@ =~= other@ + (c + path@ + c + query@ + tail));
    if key@ == by_method@ {
        let rest = c + path@ + c + query@ + tail;
        lemma_equal_tails(method@, rest, other@, rest);
    }
    assert(key@ =~= (method@ + c + path@) + (c + query@ + tail));
    assert(by_path@ =~= (method@ + c + other@) + (c + query@ + tail));
    if key@ == by_path@ {
        let rest = c + query@ + tail;
        lemma_equal_tails(method@ + c + path@, rest, method@ + c + other@, rest);
        lemma_equal_heads(method@ + c, path@, other@);
    }
    assert(key@ =~= (method@ + c + path@ + c + query@) + tail);
    assert(by_query@ =~= (method@ + c + path@ + c + other@) + tail);
    if key@ == by_query@ {
        lemma_equal_tails(
            method@ + c + path@ + c + query@,
            tail,
            method@ + c + path@ + c + other@,
            tail,
        );
        lemma_equal_heads(method@ + c + path@ + c, query@, other@);
    }
}

/// Equal texts with equal beginnings have equal ends.
proof fn lemma_equal_heads(a: Seq<char>, x: Seq<char>, y: Seq<char>)
    requires
        a + x == a + y,
    ensures
        x == y,
{
    let (s, t) = (a + x, a + y);
    assert(s.len() == a.len() + x.len() && t.len() == a.len() + y.len());
    assert forall|i: int| 0 <= i < x.len() implies x[i] == y[i] by {
        assert(s[a.len() + i] == x[i] && t[a.len() + i] == y[i]);
    }
    assert(x =~= y);
}

/// A store key is the prefix and 64 characters, the hexadecimal text of the hash of all of
/// the base key. With one prefix, two base keys have one store key exactly when they have
/// the same hash; with one base key, two prefixes never do.
pub proof fn law_store_key(
    prefix1: &str,
    base1: &str,
    key1: String,
    prefix2: &str,
    base2: &str,
    key2: String,
)
    requires
        call_ensures(store_key_of, (prefix1, base1), key1),
        call_ensures(store_key_of, (prefix2, base2), key2),
    ensures
        key1@ == prefix1@ + hex_text(sha256(encode_utf8(base1@))),
        key1@.len() == prefix1@.len() + 64,
        key1@ == key2@ <==> prefix1@ == prefix2@ && sha256(encode_utf8(base1@)) == sha256(
            encode_utf8(base2@),
        ),
{
    let (x, y) = (hex_text(sha256(encode_utf8(base1@))), hex_text(sha256(encode_utf8(base2@))));
    assert(key1@ == prefix1@ + x && key2@ == prefix2@ + y);
    assert(x.len() == 64 && y.len() == 64);
    if key1@ == key2@ {
        lemma_equal_tails(prefix1@, x, prefix2@, y);
        law_hex_text_injective(sha256(encode_utf8(base1@)), sha256(encode_utf8(base2@)));
    }
}

/// The joins put their parts together as they are.
pub proof fn law_joins(
    method: &str,
    path: &str,
    query: &str,
    digest: &[u8],
    bare: String,
    with_body: String,
    prefix: &str,
    key: String,
)
    requires
        call_ensures(join_base_key, (method, path, query, None::<&[u8]>), bare),
        call_ensures(join_base_key, (method, path, query, Some(digest)), with_body),
        call_ensures(join_store_key, (prefix, digest), key),
    ensures
        bare@ == method@ + seq![':'] + path@ + seq![':'] + query@,
        with_body@ == bare@ + seq![':'] + hex_text(digest@),
        key@ == prefix@ + hex_text(digest@),
{
}

// ---------------------------------------------------------------------------
// Cache control

/// A raw header value is visible ASCII, and one of the words stands somewhere in it.
pub open spec fn says_no(value: Seq<u8>) -> bool {
    &&& visible_text(value) is Some
    &&& occurs_in("no-cache"@, visible_text(value)->Some_0) || occurs_in(
        "no-store"@,
        visible_text(value)->Some_0,
    )
}

/// A value that is plain text forbids caching whenever one of the words stands in it,
/// whatever stands before and after, and whether or not the other word does.
pub proof fn law_either_word_forbids(
    value: &[u8],
    denies: bool,
    before: Seq<char>,
    after: Seq<char>,
)
    requires
        call_ensures(denies_caching, (value,), denies),
        visible_text(value@) == Some(before + "no-cache"@ + after) || visible_text(value@) == Some(
            before + "no-store"@ + after,
        ),
    ensures
        denies,
{
    lemma_occurs(before, "no-cache"@, after);
    lemma_occurs(before, "no-store"@, after);
}

proof fn lemma_occurs(before: Seq<char>, word: Seq<char>, after: Seq<char>)
    ensures
        occurs_in(word, before + word + after),
{
    let text = before + word + after;
    let i = before.len() as int;
    assert(text.subrange(i, i + word.len()) =~= word);
}

/// A value forbids caching only if it is plain text and one of the words stands in it.
pub proof fn law_only_the_words_forbid(value: &[u8], denies: bool)
    requires
        call_ensures(denies_caching, (value,), denies),
    ensures
        denies <==> says_no(value@),
{
}

/// Header fields forbid that a request is cached by the first `Cache-Control`, and that a
/// response is stored by any one; a value does so by either word.
pub proof fn law_which_fields_forbid(fields: Map<Seq<char>, Seq<Seq<u8>>>, value: Seq<u8>)
    ensures
        value_forbids_caching(value) <==> says_no(value),
        forbids_caching(fields) <==> fields.contains_key("cache-control"@)
            && fields["cache-control"@].len() > 0 && says_no(fields["cache-control"@][0]),
        forbids_storing(fields) <==> fields.contains_key("cache-control"@) && exists|i: int|
            0 <= i < fields["cache-control"@].len() && says_no(
                #[trigger] fields["cache-control"@][i],
            ),
{
    let values = values_in(fields, "cache-control"@);
    if forbids_storing(fields) {
        let i = choose|i: int| 0 <= i < values.len() && says_no(#[trigger] values[i]);
        assert(says_no(fields["cache-control"@][i]));
    }
    if fields.contains_key("cache-control"@) && exists|i: int|
        0 <= i < fields["cache-control"@].len() && says_no(
            #[trigger] fields["cache-control"@][i],
        ) {
        let i = choose|i: int|
            0 <= i < fields["cache-control"@].len() && says_no(
                #[trigger] fields["cache-control"@][i],
            );
        assert(value_forbids_caching(values[i]));
    }
}

/// A request passes by the cache exactly when it has a `Cache-Control` and the first value
/// of it is plain text in which one of the words stands.
pub proof fn law_request_bypass<S>(
    service: &RedisCacheMiddlewareService<S>,
    headers: &HeaderMap,
    admission: Admission,
    skips: bool,
)
    requires
        call_ensures(RedisCacheMiddlewareService::<S>::call, (service, headers), admission),
        call_ensures(skips_cache, (headers,), skips),
    ensures
        skips <==> admission is Bypass,
        admission is Bypass <==> {
            let fields = header_fields(*headers);
            &&& fields.contains_key("cache-control"@)
            &&& fields["cache-control"@].len() > 0
            &&& says_no(fields["cache-control"@][0])
        },
        admission matches Admission::Read(reader) ==> buffer_of(reader.body).len() == 0,
{
}

/// Whatever else the first `Cache-Control` of a request holds, it passes by the cache if
/// one of the words stands in it.
pub proof fn law_request_bypass_by_either_word<S>(
    service: &RedisCacheMiddlewareService<S>,
    headers: &HeaderMap,
    admission: Admission,
    before: Seq<char>,
    after: Seq<char>,
)
    requires
        call_ensures(RedisCacheMiddlewareService::<S>::call, (service, headers), admission),
        header_fields(*headers).contains_key("cache-control"@),
        header_fields(*headers)["cache-control"@].len() > 0,
        ({
            let text = visible_text(header_fields(*headers)["cache-control"@][0]);
            text == Some(before + "no-cache"@ + after) || text == Some(
                before + "no-store"@ + after,
            )
        }),
    ensures
        admission is Bypass,
{
    lemma_occurs(before, "no-cache"@, after);
    lemma_occurs(before, "no-store"@, after);
}

/// A list, or a response, stays out of the cache exactly when one of its `Cache-Control`
/// values is plain text in which one of the words stands.
pub proof fn law_response_stays_out(
    raw: &Vec<(String, Vec<u8>)>,
    denies: bool,
    headers: &HeaderMap,
    stays_out: bool,
)
    requires
        call_ensures(some_denies_caching, (raw,), denies),
        call_ensures(stays_out_of_cache, (headers,), stays_out),
    ensures
        denies <==> exists|i: int|
            0 <= i < raw@.len() && (#[trigger] raw@[i]).0@ == "cache-control"@ && says_no(
                raw@[i].1@,
            ),
        stays_out <==> header_fields(*headers).contains_key("cache-control"@) && exists|i: int|
            0 <= i < header_fields(*headers)["cache-control"@].len() && says_no(
                #[trigger] header_fields(*headers)["cache-control"@][i],
            ),
{
    let name = "cache-control"@;
    let pairs = raw_pairs(raw@);
    let values = values_for(pairs, name);
    if denies {
        let k = choose|k: int| 0 <= k < values.len() && says_no(#[trigger] values[k]);
        lemma_value_is_in_list(pairs, name, k);
        let i = choose|i: int|
            0 <= i < pairs.len() && (#[trigger] pairs[i]).0 == name && pairs[i].1 == values[k];
        assert(raw@[i].0@ == name && says_no(raw@[i].1@));
    }
    if exists|i: int|
        0 <= i < raw@.len() && (#[trigger] raw@[i]).0@ == name && says_no(raw@[i].1@) {
        let i = choose|i: int|
            0 <= i < raw@.len() && (#[trigger] raw@[i]).0@ == name && says_no(raw@[i].1@);
        assert(pairs[i] == (raw@[i].0@, raw@[i].1@));
        lemma_listed_is_a_value(pairs, i);
        let k = choose|k: int| 0 <= k < values.len() && #[trigger] values[k] == pairs[i].1;
        assert(says_no(values[k]));
        assert(some_forbids_caching(values));
    }
    let held = values_in(header_fields(*headers), name);
    if stays_out {
        let k = choose|k: int| 0 <= k < held.len() && says_no(#[trigger] held[k]);
        assert(says_no(header_fields(*headers)[name][k]));
    }
}

/// What is found under a name stands in the list under that name.
proof fn lemma_value_is_in_list<V>(pairs: Seq<(Seq<char>, V)>, name: Seq<char>, k: int)
    requires
        0 <= k < values_for(pairs, name).len(),
    ensures
        exists|i: int|
            0 <= i < pairs.len() && (#[trigger] pairs[i]).0 == name && pairs[i].1 == values_for(
                pairs,
                name,
            )[k],
    decreases pairs.len(),
{
    if pairs.len() == 0 {
        lemma_values_for_empty(pairs, name);
    } else {
        lemma_values_for_step(pairs, name);
        let shorter = pairs.drop_last();
        if k < values_for(shorter, name).len() {
            lemma_value_is_in_list(shorter, name, k);
            let i = choose|i: int|
                0 <= i < shorter.len() && (#[trigger] shorter[i]).0 == name && shorter[i].1
                    == values_for(shorter, name)[k];
            assert(pairs[i] == shorter[i]);
        } else {
            assert(pairs[pairs.len() - 1].0 == name);
        }
    }
}

/// What stands in the list under a name is found under it.
proof fn lemma_listed_is_a_value<V>(pairs: Seq<(Seq<char>, V)>, i: int)
    requires
        0 <= i < pairs.len(),
    ensures
        exists|k: int|
            0 <= k < values_for(pairs, pairs[i].0).len() && #[trigger] values_for(
                pairs,
                pairs[i].0,
            )[k] == pairs[i].1,
    decreases pairs.len(),
{
    let name = pairs[i].0;
    lemma_values_for_step(pairs, name);
    let shorter = pairs.drop_last();
    if i < shorter.len() {
        lemma_listed_is_a_value(shorter, i);
        let k = choose|k: int|
            0 <= k < values_for(shorter, name).len() && #[trigger] values_for(shorter, name)[k]
                == pairs[i].1;
        assert(values_for(pairs, name)[k] == pairs[i].1);
    } else {
        let k = values_for(shorter, name).len() as int;
        assert(values_for(pairs, name)[k] == pairs[i].1);
    }
}

// ---------------------------------------------------------------------------
// Payloads and bodies as JSON

/// A reader starts empty, and takes every byte of every chunk, in order, and nothing of an
/// error.
pub proof fn law_reader_takes_whole_chunks<E>(
    fresh: PayloadReader,
    reader: &mut PayloadReader,
    chunk: Bytes,
    failing: &mut PayloadReader,
    error: E,
)
    requires
        call_ensures(PayloadReader::new, (), fresh),
        call_ensures(PayloadReader::take_item::<E>, (reader, Ok(chunk)), ()),
        call_ensures(PayloadReader::take_item::<E>, (failing, Err(error)), ()),
    ensures
        buffer_of(fresh.body) == Seq::<u8>::empty(),
        buffer_of(final(reader).body) == buffer_of(old(reader).body) + bytes_of(chunk),
        buffer_of(final(reader).body).len() == buffer_of(old(reader).body).len() + bytes_of(
            chunk,
        ).len(),
        buffer_of(final(failing).body) == buffer_of(old(failing).body),
{
    assert(buffer_of(final(failing).body) =~= buffer_of(old(failing).body));
}

/// A recorder takes every byte of every chunk, in order, and nothing of an error or the end;
/// it notes the error and the end, hands every item on as it is, and keeps all else.
pub proof fn law_recorder_takes_whole_chunks<E>(
    recorder: &mut CacheableBody,
    ready: Option<Result<Bytes, E>>,
    item: Option<Result<Bytes, E>>,
)
    requires
        call_ensures(CacheableBody::poll_next::<E>, (recorder, ready), item),
    ensures
        item == ready,
        ready matches Some(Ok(chunk)) ==> buffer_of(final(recorder).body_accum) == buffer_of(
            old(recorder).body_accum,
        ) + bytes_of(chunk),
        !(ready matches Some(Ok(_))) ==> buffer_of(final(recorder).body_accum) == buffer_of(
            old(recorder).body_accum,
        ),
        final(recorder).ended <==> old(recorder).ended || ready is None,
        final(recorder).failed <==> old(recorder).failed || ready matches Some(Err(_)),
        final(recorder).status == old(recorder).status,
        final(recorder).headers == old(recorder).headers,
        final(recorder).announced == old(recorder).announced,
        final(recorder).cache_key == old(recorder).cache_key,
        final(recorder).redis_conn == old(recorder).redis_conn,
        final(recorder).redis_url == old(recorder).redis_url,
        final(recorder).ttl == old(recorder).ttl,
        final(recorder).max_size == old(recorder).max_size,
{
    if !(ready matches Some(Ok(_))) {
        assert(buffer_of(final(recorder).body_accum) =~= buffer_of(old(recorder).body_accum));
    }
}

/// An item of a stream is all of its bytes, or nothing if it is an error. A stream of chunks
/// is all of their bytes, one chunk after the other; streams one after the other are what
/// the first is followed by what the second is.
pub proof fn law_stream_is_all_of_its_chunks<E>(
    chunk: Bytes,
    error: E,
    chunks: Seq<Bytes>,
    first: Seq<Result<Bytes, E>>,
    second: Seq<Result<Bytes, E>>,
)
    ensures
        item_bytes(Ok::<Bytes, E>(chunk)) == bytes_of(chunk),
        item_bytes(Err::<Bytes, E>(error)) == Seq::<u8>::empty(),
        stream_bytes(chunks.map_values(|c: Bytes| Ok::<Bytes, E>(c))) == chunks.map_values(
            |c: Bytes| bytes_of(c),
        ).flatten(),
        stream_bytes(first + second) == stream_bytes(first) + stream_bytes(second),
        stream_bytes(first.push(Ok(chunk))) == stream_bytes(first) + bytes_of(chunk),
        stream_bytes(first.push(Err(error))) == stream_bytes(first),
{
    lemma_stream_of_chunks::<E>(chunks);
    lemma_stream_concat(first, second);
    assert(first.push(Ok(chunk)).drop_last() =~= first);
    assert(first.push(Err(error)).drop_last() =~= first);
    assert(stream_bytes(first) + Seq::<u8>::empty() =~= stream_bytes(first));
}

proof fn lemma_stream_of_chunks<E>(chunks: Seq<Bytes>)
    ensures
        stream_bytes(chunks.map_values(|c: Bytes| Ok::<Bytes, E>(c))) == chunks.map_values(
            |c: Bytes| bytes_of(c),
        ).flatten(),
    decreases chunks.len(),
{
    let items = chunks.map_values(|c: Bytes| Ok::<Bytes, E>(c));
    let parts = chunks.map_values(|c: Bytes| bytes_of(c));
    parts.lemma_flatten_and_flatten_alt_are_equivalent();
    if chunks.len() > 0 {
        let shorter = chunks.drop_last();
        lemma_stream_of_chunks::<E>(shorter);
        let fewer = shorter.map_values(|c: Bytes| bytes_of(c));
        fewer.lemma_flatten_and_flatten_alt_are_equivalent();
        assert(items.drop_last() =~= shorter.map_values(|c: Bytes| Ok::<Bytes, E>(c)));
        assert(parts.drop_last() =~= fewer);
        assert(items.last() == Ok::<Bytes, E>(chunks.last()));
        assert(parts.last() == bytes_of(chunks.last()));
    }
}

proof fn lemma_stream_concat<E>(first: Seq<Result<Bytes, E>>, second: Seq<Result<Bytes, E>>)
    ensures
        stream_bytes(first + second) == stream_bytes(first) + stream_bytes(second),
    decreases second.len(),
{
    if second.len() == 0 {
        assert(first + second =~= first);
        assert(stream_bytes(first) + stream_bytes(second) =~= stream_bytes(first));
    } else {
        lemma_stream_concat(first, second.drop_last());
        assert((first + second).drop_last() =~= first + second.drop_last());
        assert((first + second).last() == second.last());
        assert(stream_bytes(first + second) =~= stream_bytes(first) + stream_bytes(second));
    }
}

/// The value of a body is what `serde_json` reads out of all of its bytes, and null where
/// it reads none.
pub proof fn law_body_value(body: &[u8], value: Value, parsed: Option<Value>, chosen: Value)
    requires
        call_ensures(parse_body, (body,), value),
        call_ensures(value_or_null, (parsed,), chosen),
    ensures
        json_value(body@) matches Some(v) ==> value == v,
        json_value(body@) is None ==> Some(value) == json_value(null_text()),
        parsed matches Some(v) ==> chosen == v,
        parsed is None ==> Some(chosen) == json_value(null_text()),
{
}

// ---------------------------------------------------------------------------
// Lookup

/// The request that a turn before the store's answer carries.
pub open spec fn request_in(turn: Turn) -> PendingResponse {
    match turn {
        Turn::Connect(wait) => wait.pending,
        Turn::Fetch(wait) => wait.pending,
        Turn::Decode(wait) => wait.pending,
        Turn::Forward(pending) => pending,
        Turn::Serve(_) => arbitrary(),
    }
}

/// A lookup starts as it is told: without caching the request is passed on, with caching it
/// is looked up, after connecting where there is no connection. Key, time to live, limit and
/// URL are the service's.
pub proof fn law_lookup_starts<S>(
    service: &RedisCacheMiddlewareService<S>,
    should_cache: bool,
    base_key: &str,
    turn: Turn,
)
    requires
        call_ensures(
            RedisCacheMiddlewareService::<S>::begin_lookup,
            (service, should_cache, base_key),
            turn,
        ),
    ensures
        turn is Forward <==> !should_cache,
        turn is Connect <==> should_cache && service.redis_conn is None,
        turn is Fetch <==> should_cache && service.redis_conn is Some,
        turn matches Turn::Forward(pending) ==> (pending.redis_conn is Some
            <==> service.redis_conn is Some),
        request_in(turn).should_cache == should_cache,
        request_in(turn).cache_key@ == service.cache_prefix@ + hex_text(
            sha256(encode_utf8(base_key@)),
        ),
        request_in(turn).cache_key@.len() == service.cache_prefix@.len() + 64,
        request_in(turn).redis_url == service.redis_url,
        request_in(turn).ttl == service.ttl,
        request_in(turn).max_cacheable_size == service.max_cacheable_size,
{
}

/// The payload is handed back whole.
pub proof fn law_payload_is_handed_back<S>(
    service: &RedisCacheMiddlewareService<S>,
    head: RequestHead,
    reader: PayloadReader,
    next: (Bytes, Turn),
)
    requires
        call_ensures(
            RedisCacheMiddlewareService::<S>::payload_read,
            (service, head, reader),
            next,
        ),
    ensures
        bytes_of(next.0) == buffer_of(reader.body),
{
}

/// The predicate decides: where every answer that it may give about the request is no, the
/// request is passed on and marked as not to be cached; where every answer is yes, it is
/// looked up and marked as to be cached; and it is never one without such an answer. It is
/// asked about the request as it is, with what `serde_json` reads out of the whole payload.
pub proof fn law_predicate_decides<S>(
    service: &RedisCacheMiddlewareService<S>,
    head: RequestHead,
    reader: PayloadReader,
    next: (Bytes, Turn),
    json: Value,
)
    requires
        call_ensures(
            RedisCacheMiddlewareService::<S>::payload_read,
            (service, head, reader),
            next,
        ),
        match json_value(buffer_of(reader.body)) {
            Some(value) => json == value,
            None => json == json_value(null_text())->Some_0,
        },
    ensures
        ({
            let ctx = CacheContext {
                method: head.method,
                path: head.path,
                query_string: head.query_string,
                headers: head.headers,
                body: &json,
            };
            &&& (forall|answer: bool| #[trigger]
                service.cache_if.may_answer(&ctx, answer) ==> !answer) ==> next.1 is Forward
                && !request_in(next.1).should_cache
            &&& (forall|answer: bool| #[trigger]
                service.cache_if.may_answer(&ctx, answer) ==> answer) ==> (next.1 is Connect
                || next.1 is Fetch) && request_in(next.1).should_cache
            &&& service.cache_if.may_answer(&ctx, request_in(next.1).should_cache)
        }),
        next.1 is Forward <==> !request_in(next.1).should_cache,
        next.1 is Connect ==> service.redis_conn is None,
        next.1 is Fetch ==> service.redis_conn is Some,
        !(next.1 is Serve || next.1 is Decode),
{
    let ctx = CacheContext {
        method: head.method,
        path: head.path,
        query_string: head.query_string,
        headers: head.headers,
        body: &json,
    };
    assert(service.may_begin(next.1, &ctx, buffer_of(reader.body)));
}

/// Of a request about which every answer of the predicate is no, every first turn passes it
/// on and marks it as not to be cached; where every answer is yes, every first turn looks it
/// up, after connecting exactly where the service has no connection.
pub proof fn law_predicate_decides_the_first_turn<S>(
    service: &RedisCacheMiddlewareService<S>,
    turn: Turn,
    ctx: &CacheContext,
    body: Seq<u8>,
)
    requires
        service.may_begin(turn, ctx, body),
    ensures
        (forall|answer: bool| #[trigger] service.cache_if.may_answer(ctx, answer) ==> !answer)
            ==> turn is Forward && !request_in(turn).should_cache,
        (forall|answer: bool| #[trigger] service.cache_if.may_answer(ctx, answer) ==> answer)
            ==> request_in(turn).should_cache && (turn is Connect <==> service.redis_conn is None)
            && (turn is Fetch <==> service.redis_conn is Some),
{
}

/// Without a key rule, the key is made of the prefix and the hash of method, path, query
/// string and, where there is one, the hash of the whole payload; a key rule that is asked
/// about the request gives what is hashed in place of that. Time to live, limit and URL are
/// the service's.
pub proof fn law_key_of_a_request<S>(
    service: &RedisCacheMiddlewareService<S>,
    head: RequestHead,
    reader: PayloadReader,
    next: (Bytes, Turn),
    json: Value,
)
    requires
        call_ensures(
            RedisCacheMiddlewareService::<S>::payload_read,
            (service, head, reader),
            next,
        ),
        match json_value(buffer_of(reader.body)) {
            Some(value) => json == value,
            None => json == json_value(null_text())->Some_0,
        },
    ensures
        service.cache_key_fn is None ==> request_in(next.1).cache_key@ == service.cache_prefix@
            + hex_text(
            sha256(
                encode_utf8(
                    head.method@ + seq![':'] + head.path@ + seq![':'] + head.query_string@ + if (
                    buffer_of(reader.body).len() == 0) {
                        Seq::<char>::empty()
                    } else {
                        seq![':'] + hex_text(sha256(buffer_of(reader.body)))
                    },
                ),
            ),
        ),
        service.cache_key_fn matches Some(rule) ==> exists|text: String|
            rule.may_answer(
                &(CacheContext {
                    method: head.method,
                    path: head.path,
                    query_string: head.query_string,
                    headers: head.headers,
                    body: &json,
                }),
                text,
            ) && request_in(next.1).cache_key@ == service.cache_prefix@ + hex_text(
                sha256(encode_utf8(#[trigger] text@)),
            ),
        request_in(next.1).cache_key@.len() == service.cache_prefix@.len() + 64,
        request_in(next.1).redis_url == service.redis_url,
        request_in(next.1).ttl == service.ttl,
        request_in(next.1).max_cacheable_size == service.max_cacheable_size,
{
    let ctx = CacheContext {
        method: head.method,
        path: head.path,
        query_string: head.query_string,
        headers: head.headers,
        body: &json,
    };
    let body = buffer_of(reader.body);
    assert(service.may_begin(next.1, &ctx, body));
    let (should_cache, base_key) = choose|should_cache: bool, base_key: Seq<char>|
        #![trigger begins(next.1, service, should_cache, base_key)]
        service.cache_if.may_answer(&ctx, should_cache) && service.may_key(&ctx, body, base_key)
            && begins(next.1, service, should_cache, base_key);
    if service.cache_key_fn is None {
        let line = head.method@ + seq![':'] + head.path@ + seq![':'] + head.query_string@;
        assert(line + Seq::<char>::empty() =~= line);
        assert(line + (seq![':'] + hex_text(sha256(body))) =~= line + seq![':'] + hex_text(
            sha256(body),
        ));
    } else {
        let rule = service.cache_key_fn->Some_0;
        let text = choose|text: String| #[trigger]
            rule.may_answer(&ctx, text) && text@ == base_key;
        assert(rule.may_answer(&ctx, text) && text@ == base_key);
    }
}

/// The base key of a context is an answer of the key rule, or, without one, the default one.
pub proof fn law_base_key_of_a_context<S>(
    service: &RedisCacheMiddlewareService<S>,
    ctx: &CacheContext,
    body: &[u8],
    key: String,
)
    requires
        call_ensures(RedisCacheMiddlewareService::<S>::base_key, (service, ctx, body), key),
    ensures
        service.cache_key_fn matches Some(rule) ==> exists|text: String| #[trigger]
            rule.may_answer(ctx, text) && text@ == key@,
        service.cache_key_fn is None && body@.len() == 0 ==> key@ == ctx.method@ + seq![':']
            + ctx.path@ + seq![':'] + ctx.query_string@,
        service.cache_key_fn is None && body@.len() > 0 ==> key@ == ctx.method@ + seq![':']
            + ctx.path@ + seq![':'] + ctx.query_string@ + seq![':'] + hex_text(sha256(body@)),
{
}

/// Once connected, the entry is fetched on that connection for the same request.
pub proof fn law_connected_lookup_fetches(
    wait: AwaitConnection,
    conn: MultiplexedConnection,
    turn: Turn,
)
    requires
        call_ensures(AwaitConnection::connected, (wait, conn), turn),
    ensures
        turn matches Turn::Fetch(next) && next.conn == conn && next.pending == wait.pending,
{
}

/// A reply shows a stored response of these parts. Where every pair is a header that a
/// response can carry: the stored status if it is one, 200 if not; the stored body; under
/// each stored name, in lower case, the value of the last pair of that name; `HIT` under
/// `x-cache`; and nothing else. Otherwise it names the first pair that is none.
pub open spec fn shows(
    reply: Reply,
    status: u16,
    pairs: Seq<(Seq<char>, Seq<char>)>,
    body: Seq<u8>,
) -> bool {
    match reply {
        Reply::Response { status: sent, headers, body: carried } => {
            &&& forall|i: int|
                0 <= i < pairs.len() ==> is_header_name((#[trigger] pairs[i]).0)
                    && is_header_value(pairs[i].1)
            &&& 100 <= status <= 999 ==> sent == status
            &&& !(100 <= status <= 999) ==> sent == 200
            &&& carried@ == body
            &&& header_fields(headers).contains_key("x-cache"@)
            &&& header_fields(headers)["x-cache"@] == seq![encode_utf8("HIT"@)]
            &&& forall|i: int|
                0 <= i < pairs.len() ==> header_fields(headers).contains_key(
                    ascii_lower((#[trigger] pairs[i]).0),
                )
            &&& forall|i: int|
                0 <= i < pairs.len() && ascii_lower((#[trigger] pairs[i]).0) != "x-cache"@
                    && is_last_of_its_name(pairs, i) ==> header_fields(headers)[ascii_lower(
                    pairs[i].0,
                )] == seq![encode_utf8(pairs[i].1)]
            &&& forall|name: Seq<char>| #[trigger]
                header_fields(headers).contains_key(name) && name != "x-cache"@ ==> exists|i: int|
                    0 <= i < pairs.len() && ascii_lower((#[trigger] pairs[i]).0) == name
        },
        Reply::Rejected { name, value } => exists|i: int|
            {
                &&& 0 <= i < pairs.len()
                &&& #[trigger] pairs[i] == (name@, value@)
                &&& !(is_header_name(name@) && is_header_value(value@))
                &&& forall|j: int|
                    0 <= j < i ==> is_header_name((#[trigger] pairs[j]).0) && is_header_value(
                        pairs[j].1,
                    )
            },
    }
}

/// No later pair has the same name, in any letter case.
pub open spec fn is_last_of_its_name(pairs: Seq<(Seq<char>, Seq<char>)>, i: int) -> bool {
    forall|j: int|
        i < j < pairs.len() ==> ascii_lower((#[trigger] pairs[j]).0) != ascii_lower(pairs[i].0)
}

proof fn lemma_replayed(pairs: Seq<(Seq<char>, Seq<char>)>)
    ensures
        forall|i: int|
            0 <= i < pairs.len() ==> replayed(pairs).contains_key(
                ascii_lower((#[trigger] pairs[i]).0),
            ),
        forall|i: int|
            0 <= i < pairs.len() && is_last_of_its_name(pairs, i) ==> replayed(pairs)[ascii_lower(
                (#[trigger] pairs[i]).0,
            )] == seq![encode_utf8(pairs[i].1)],
        forall|name: Seq<char>| #[trigger]
            replayed(pairs).contains_key(name) ==> exists|i: int|
                0 <= i < pairs.len() && ascii_lower((#[trigger] pairs[i]).0) == name,
    decreases pairs.len(),
{
    if pairs.len() > 0 {
        let shorter = pairs.drop_last();
        lemma_replayed(shorter);
        let last = pairs.len() - 1;
        assert forall|i: int| 0 <= i < pairs.len() implies replayed(pairs).contains_key(
            ascii_lower((#[trigger] pairs[i]).0),
        ) by {
            if i < last {
                assert(shorter[i] == pairs[i]);
            }
        }
        assert forall|i: int| 0 <= i < pairs.len() && is_last_of_its_name(pairs, i) implies replayed(
            pairs,
        )[ascii_lower((#[trigger] pairs[i]).0)] == seq![encode_utf8(pairs[i].1)] by {
            if i < last {
                assert(shorter[i] == pairs[i]);
                assert(ascii_lower(pairs[last].0) != ascii_lower(pairs[i].0));
                assert forall|j: int| i < j < shorter.len() implies ascii_lower(
                    (#[trigger] shorter[j]).0,
                ) != ascii_lower(shorter[i].0) by {
                    assert(shorter[j] == pairs[j]);
                }
                assert(is_last_of_its_name(shorter, i));
            }
        }
        assert forall|name: Seq<char>| #[trigger] replayed(pairs).contains_key(name) implies exists|
            i: int,
        |
            0 <= i < pairs.len() && ascii_lower((#[trigger] pairs[i]).0) == name by {
            if ascii_lower(pairs[last].0) != name {
                assert(replayed(shorter).contains_key(name));
                let i = choose|i: int|
                    0 <= i < shorter.len() && ascii_lower((#[trigger] shorter[i]).0) == name;
                assert(pairs[i] == shorter[i]);
            }
        }
    }
}

proof fn lemma_answer_shows(
    reply: Reply,
    status: u16,
    pairs: Seq<(Seq<char>, Seq<char>)>,
    body: Seq<u8>,
)
    requires
        answers(reply, (status, pairs, body)),
    ensures
        shows(reply, status, pairs, body),
{
    match reply {
        Reply::Response { status: sent, headers, body: carried } => {
            lemma_replayed(pairs);
            assert forall|i: int| 0 <= i < pairs.len() implies is_header_name(
                (#[trigger] pairs[i]).0,
            ) && is_header_value(pairs[i].1) by {
                assert(is_acceptable(pairs[i]));
            }
            assert forall|name: Seq<char>| #[trigger]
                header_fields(headers).contains_key(name) && name != "x-cache"@ implies exists|
                i: int,
            |
                0 <= i < pairs.len() && ascii_lower((#[trigger] pairs[i]).0) == name by {
                assert(replayed(pairs).contains_key(name));
            }
        },
        Reply::Rejected { name, value } => {
            let i = choose|i: int|
                0 <= i < pairs.len() && #[trigger] pairs[i] == (name@, value@)
                    && !is_acceptable((name@, value@))
                    && all_acceptable(pairs.take(i));
            assert forall|j: int| 0 <= j < i implies is_header_name((#[trigger] pairs[j]).0)
                && is_header_value(pairs[j].1) by {
                assert(pairs.take(i)[j] == pairs[j]);
                assert(is_acceptable(pairs.take(i)[j]));
            }
            assert(pairs[i] == (name@, value@));
        },
    }
}

/// A stored response is shown as it is, whether it comes as an entry or was read by the
/// caller.
pub proof fn law_stored_response_is_shown(
    stored: CachedResponse,
    reply: Reply,
    wait: AwaitDecoded,
    read: CachedResponse,
    turn: Turn,
)
    requires
        call_ensures(CachedResponse::into_reply, (stored,), reply),
        call_ensures(AwaitDecoded::decoded, (wait, Some(read)), turn),
    ensures
        shows(reply, stored.status, text_pairs(stored.headers@), stored.body@),
        turn matches Turn::Serve(sent) && shows(
            sent,
            read.status,
            text_pairs(read.headers@),
            read.body@,
        ),
{
    lemma_answer_shows(reply, stored.status, text_pairs(stored.headers@), stored.body@);
    lemma_answer_shows(turn->Serve_0, read.status, text_pairs(read.headers@), read.body@);
}

/// An entry that the caller could not read is a miss: the request goes on as it was.
pub proof fn law_unread_entry_is_a_miss(wait: AwaitDecoded, turn: Turn)
    requires
        call_ensures(AwaitDecoded::decoded, (wait, None), turn),
    ensures
        turn == Turn::Forward(wait.pending),
{
}

/// Without an entry the request goes on with its connection; an entry that is an array of
/// fields is shown; any other one is handed to the caller whole, with the request.
pub proof fn law_entry_decides(wait: AwaitEntry, entry: Option<Vec<u8>>, turn: Turn)
    requires
        call_ensures(AwaitEntry::fetched, (wait, entry), turn),
    ensures
        entry is None ==> turn is Forward,
        entry matches Some(data) ==> match unpacked(data@) {
            Some((status, pairs, body)) => turn matches Turn::Serve(reply) && shows(
                reply,
                status,
                pairs,
                body,
            ),
            None => turn matches Turn::Decode(next) && next.data@ == data@,
        },
        turn is Forward || turn is Decode ==> {
            let pending = request_in(turn);
            &&& pending.redis_conn == Some(wait.conn)
            &&& pending.should_cache == wait.pending.should_cache
            &&& pending.cache_key == wait.pending.cache_key
            &&& pending.redis_url == wait.pending.redis_url
            &&& pending.ttl == wait.pending.ttl
            &&& pending.max_cacheable_size == wait.pending.max_cacheable_size
        },
{
    if let Some(data) = entry {
        if let Some((status, pairs, body)) = unpacked(data@) {
            lemma_answer_shows(turn->Serve_0, status, pairs, body);
        }
    }
}

/// An entry is read as what `rmp_serde` finds in it.
pub proof fn law_entry_is_read(data: &[u8], stored: Option<CachedResponse>)
    requires
        call_ensures(CachedResponse::from_entry, (data,), stored),
    ensures
        stored is None <==> unpacked(data@) is None,
        stored matches Some(r) ==> unpacked(data@) == Some(
            (r.status, text_pairs(r.headers@), r.body@),
        ),
{
}

// ---------------------------------------------------------------------------
// Recording

/// One of the three names of headers that are not stored, in any letter case.
pub open spec fn is_left_out(name: Seq<char>) -> bool {
    ||| lowercase(name) == "connection"@
    ||| lowercase(name) == "transfer-encoding"@
    ||| lowercase(name) == "content-length"@
}

/// The three names, in any letter case, and no others are those of headers that are not
/// stored. Of names as header maps keep them, these are just three.
pub proof fn law_three_names_are_left_out(name: &str, found: bool)
    requires
        call_ensures(names_transfer_header, (name,), found),
    ensures
        found <==> is_left_out(name@),
        is_ascii_chars(name@) ==> (found <==> ascii_lower(name@) == "connection"@ || ascii_lower(
            name@,
        ) == "transfer-encoding"@ || ascii_lower(name@) == "content-length"@),
        is_stored_name(name@) ==> (found <==> name@ == "connection"@ || name@
            == "transfer-encoding"@ || name@ == "content-length"@),
{
    if is_stored_name(name@) {
        lemma_stored_name_is_ascii(name@);
    }
}

proof fn lemma_stored_name_is_ascii(name: Seq<char>)
    requires
        is_stored_name(name),
    ensures
        is_ascii_chars(name),
        lowercase(name) == name,
{
    assert forall|i: int| 0 <= i < name.len() implies '\0' <= #[trigger] name[i] <= '\u{7f}' by {
        assert(is_name_char(name[i]));
    }
}

/// Of header fields, all values of every name but the three are stored, each as its text or,
/// where it is no plain text, as nothing; of the three names none is.
pub proof fn law_stored_values(fields: Map<Seq<char>, Seq<Seq<u8>>>, name: Seq<char>)
    ensures
        is_left_out(name) ==> stored_values(fields, name).len() == 0,
        !is_left_out(name) ==> {
            let stored = stored_values(fields, name);
            &&& stored.len() == count_in(fields, name)
            &&& forall|i: int|
                0 <= i < stored.len() ==> #[trigger] stored[i] == text_or_nothing(fields[name][i])
        },
        is_stored_name(name) && name != "connection"@ && name != "transfer-encoding"@ && name
            != "content-length"@ ==> stored_values(fields, name).len() == count_in(fields, name),
{
    if is_stored_name(name) {
        lemma_stored_name_is_ascii(name);
    }
}

/// The text of a raw value, or nothing where it is not plain text.
pub open spec fn text_or_nothing(value: Seq<u8>) -> Seq<char> {
    if visible_text(value) is Some {
        visible_text(value)->Some_0
    } else {
        Seq::empty()
    }
}

/// A single header is kept with its name and the text of its value, unless it has one of the
/// three names; the headers of a list are kept one by one, in order.
pub proof fn law_headers_are_kept_one_by_one(
    one: &Vec<(String, Vec<u8>)>,
    kept_one: Vec<(String, String)>,
    left: &Vec<(String, Vec<u8>)>,
    kept_left: Vec<(String, String)>,
    right: &Vec<(String, Vec<u8>)>,
    kept_right: Vec<(String, String)>,
    both: &Vec<(String, Vec<u8>)>,
    kept_both: Vec<(String, String)>,
)
    requires
        one@.len() == 1,
        both@ == left@ + right@,
        call_ensures(keep_headers, (one,), kept_one),
        call_ensures(keep_headers, (left,), kept_left),
        call_ensures(keep_headers, (right,), kept_right),
        call_ensures(keep_headers, (both,), kept_both),
    ensures
        is_left_out(one@[0].0@) ==> kept_one@.len() == 0,
        !is_left_out(one@[0].0@) ==> kept_one@.len() == 1 && kept_one@[0].0@ == one@[0].0@
            && kept_one@[0].1@ == text_or_nothing(one@[0].1@),
        text_pairs(kept_both@) == text_pairs(kept_left@) + text_pairs(kept_right@),
{
    let raw = raw_pairs(one@);
    assert(raw.drop_last() =~= Seq::empty());
    assert(raw.last() == (one@[0].0@, one@[0].1@));
    assert(kept_pairs(raw.drop_last()).len() == 0);
    assert(text_pairs(kept_one@) == kept_pairs(raw));
    assert(text_pairs(kept_one@).len() == kept_one@.len());
    if !is_left_out(one@[0].0@) {
        assert(text_pairs(kept_one@)[0] == (kept_one@[0].0@, kept_one@[0].1@));
        assert(kept_pairs(raw)[0] == (one@[0].0@, stored_value(one@[0].1@)));
    }
    lemma_kept_concat(raw_pairs(left@), raw_pairs(right@));
    assert(raw_pairs(both@) =~= raw_pairs(left@) + raw_pairs(right@));
}

proof fn lemma_kept_concat(a: Seq<(Seq<char>, Seq<u8>)>, b: Seq<(Seq<char>, Seq<u8>)>)
    ensures
        kept_pairs(a + b) == kept_pairs(a) + kept_pairs(b),
    decreases b.len(),
{
    if b.len() == 0 {
        assert(a + b =~= a);
        assert(kept_pairs(a) + kept_pairs(b) =~= kept_pairs(a));
    } else {
        lemma_kept_concat(a, b.drop_last());
        assert((a + b).drop_last() =~= a + b.drop_last());
        assert((a + b).last() == b.last());
        assert(kept_pairs(a + b) =~= kept_pairs(a) + kept_pairs(b));
    }
}

/// How many values header fields hold under a name.
pub open spec fn count_in(fields: Map<Seq<char>, Seq<Seq<u8>>>, name: Seq<char>) -> nat {
    if fields.contains_key(name) {
        fields[name].len()
    } else {
        0
    }
}

/// Of every name but the three, all values of a response are stored, as many as there are
/// and in their order, each as its text or, where it is no plain text, as nothing; of the
/// three names none is.
pub proof fn law_all_other_headers_are_stored(
    headers: &HeaderMap,
    kept: Vec<(String, String)>,
    name: Seq<char>,
)
    requires
        call_ensures(stored_headers, (headers,), kept),
    ensures
        is_left_out(name) ==> values_for(text_pairs(kept@), name).len() == 0,
        !is_left_out(name) ==> {
            let stored = values_for(text_pairs(kept@), name);
            &&& stored.len() == count_in(header_fields(*headers), name)
            &&& forall|i: int|
                0 <= i < stored.len() ==> #[trigger] stored[i] == text_or_nothing(
                    header_fields(*headers)[name][i],
                )
        },
{
    assert(values_for(text_pairs(kept@), name) == stored_values(header_fields(*headers), name));
}

/// A response is recorded exactly when that was asked for, its status is 200 to 299, and none
/// of its `Cache-Control` values is plain text in which one of the words stands.
pub proof fn law_which_responses_are_recorded(
    pending: PendingResponse,
    status: u16,
    headers: &HeaderMap,
    announced: Option<u64>,
    recorder: Option<CacheableBody>,
)
    requires
        call_ensures(PendingResponse::poll, (pending, status, headers, announced), recorder),
    ensures
        recorder is Some <==> {
            let fields = header_fields(*headers);
            &&& pending.should_cache
            &&& 200 <= status <= 299
            &&& forall|i: int|
                fields.contains_key("cache-control"@) && 0 <= i < fields["cache-control"@].len()
                    ==> !says_no(#[trigger] fields["cache-control"@][i])
        },
        recorder matches Some(body) ==> {
            &&& body.status == status
            &&& buffer_of(body.body_accum).len() == 0
            &&& body.announced == announced
            &&& !body.ended
            &&& !body.failed
            &&& body.cache_key == pending.cache_key
            &&& body.redis_conn == pending.redis_conn
            &&& body.redis_url == pending.redis_url
            &&& body.ttl == pending.ttl
            &&& body.max_size == pending.max_cacheable_size
        },
{
    let fields = header_fields(*headers);
    let values = values_in(fields, "cache-control"@);
    if some_forbids_caching(values) {
        let i = choose|i: int| 0 <= i < values.len() && says_no(#[trigger] values[i]);
        assert(says_no(fields["cache-control"@][i]));
    } else {
        assert forall|i: int|
            fields.contains_key("cache-control"@) && 0 <= i
                < fields["cache-control"@].len() implies !says_no(
            #[trigger] fields["cache-control"@][i],
        ) by {
            assert(values[i] == fields["cache-control"@][i]);
        }
    }
}

/// The recorded headers of a response are all values of every name but the three.
pub proof fn law_what_a_recorder_holds_of_the_headers(
    pending: PendingResponse,
    status: u16,
    headers: &HeaderMap,
    announced: Option<u64>,
    body: CacheableBody,
    name: Seq<char>,
)
    requires
        call_ensures(
            PendingResponse::poll,
            (pending, status, headers, announced),
            Some(body),
        ),
    ensures
        is_left_out(name) ==> values_for(text_pairs(body.headers@), name).len() == 0,
        !is_left_out(name) ==> {
            let stored = values_for(text_pairs(body.headers@), name);
            &&& stored.len() == count_in(header_fields(*headers), name)
            &&& forall|i: int|
                0 <= i < stored.len() ==> #[trigger] stored[i] == text_or_nothing(
                    header_fields(*headers)[name][i],
                )
        },
{
    assert(values_for(text_pairs(body.headers@), name) == stored_values(
        header_fields(*headers),
        name,
    ));
}

/// All of a body has been recorded, without an error, and it is not empty and within the
/// limit.
pub open spec fn is_complete_and_fits(body: CacheableBody) -> bool {
    &&& !body.failed
    &&& body.ended || (body.announced is Some && body.announced->Some_0 == buffer_of(
        body.body_accum,
    ).len())
    &&& 0 < buffer_of(body.body_accum).len()
    &&& buffer_of(body.body_accum).len() <= body.max_size
}

/// `turn` writes `data` for the record, under its key and with its time to live: on its
/// connection where it has one, and otherwise after connecting to its URL.
pub open spec fn puts(turn: WriteTurn, body: CacheableBody, data: Seq<u8>) -> bool {
    match turn {
        WriteTurn::Connect(write) => {
            &&& body.redis_conn is None
            &&& write.redis_url@ == body.redis_url@
            &&& write.cache_key@ == body.cache_key@
            &&& write.ttl == body.ttl
            &&& write.data@ == data
        },
        WriteTurn::Write(write) => {
            &&& body.redis_conn is Some
            &&& write.conn == body.redis_conn->Some_0
            &&& write.cache_key@ == body.cache_key@
            &&& write.ttl == body.ttl
            &&& write.data@ == data
        },
        _ => false,
    }
}

/// A record is cacheable exactly when its body is complete, not empty and within the limit;
/// only then is it written, and then it is.
pub proof fn law_which_records_are_written(
    body: CacheableBody,
    cacheable: bool,
    serialized: Option<Vec<u8>>,
    begun: WriteTurn,
    turn: WriteTurn,
)
    requires
        call_ensures(CacheableBody::is_cacheable, (&body,), cacheable),
        call_ensures(CacheableBody::begin_write, (body, serialized), begun),
        call_ensures(CacheableBody::finish, (body,), turn),
    ensures
        cacheable <==> is_complete_and_fits(body),
        begun is Skip <==> !is_complete_and_fits(body),
        is_complete_and_fits(body) && serialized is None ==> begun is Unserialized,
        is_complete_and_fits(body) && serialized is Some ==> puts(
            begun,
            body,
            serialized->Some_0@,
        ),
        turn is Skip <==> !(is_complete_and_fits(body) && body.headers@.len() <= u32::MAX
            && buffer_of(body.body_accum).len() <= u32::MAX),
        turn is Skip || turn is Unserialized || puts(
            turn,
            body,
            packed(body.status, text_pairs(body.headers@), buffer_of(body.body_accum)),
        ),
{
    assert(text_pairs(body.headers@).len() == body.headers@.len());
}

/// A write goes on unchanged on the connection that was made for it.
pub proof fn law_connected_write_is_unchanged(
    write: UnconnectedWrite,
    conn: MultiplexedConnection,
    sent: StoreWrite,
)
    requires
        call_ensures(UnconnectedWrite::connected, (write, conn), sent),
    ensures
        sent.conn == conn,
        sent.cache_key == write.cache_key,
        sent.data == write.data,
        sent.ttl == write.ttl,
{
}

/// From the response of the inner service to a later hit: the reply has the status and every
/// byte of the recorded body; of every header but the three, it has the last value, byte for
/// byte where that is plain text and empty where it is not; it has `HIT` under `x-cache`; and
/// it has nothing else.
///
/// `recorder` comes from the head of the response, `body` is the same record with what was
/// read since, `turn` ends it with the write of `data`, and `next` follows when a later
/// lookup finds `data`.
pub proof fn law_recorded_response_is_served(
    pending: PendingResponse,
    status: u16,
    headers: &HeaderMap,
    announced: Option<u64>,
    recorder: CacheableBody,
    body: CacheableBody,
    turn: WriteTurn,
    data: Seq<u8>,
    wait: AwaitEntry,
    entry: Vec<u8>,
    next: Turn,
)
    requires
        call_ensures(
            PendingResponse::poll,
            (pending, status, headers, announced),
            Some(recorder),
        ),
        body == (CacheableBody {
            body_accum: body.body_accum,
            ended: body.ended,
            failed: body.failed,
            ..recorder
        }),
        call_ensures(CacheableBody::finish, (body,), turn),
        puts(turn, body, data),
        lengths_fit(text_pairs(body.headers@), buffer_of(body.body_accum)),
        entry@ == data,
        call_ensures(AwaitEntry::fetched, (wait, Some(entry)), next),
    ensures
        next matches Turn::Serve(Reply::Response { status: sent, headers: shown, body: carried })
            && {
            let fields = header_fields(*headers);
            &&& sent == status
            &&& carried@ == buffer_of(body.body_accum)
            &&& header_fields(shown).contains_key("x-cache"@)
            &&& header_fields(shown)["x-cache"@] == seq![encode_utf8("HIT"@)]
            &&& forall|name: Seq<char>|
                name != "x-cache"@ ==> (#[trigger] header_fields(shown).contains_key(name)
                    <==> !is_left_out(name) && count_in(fields, name) > 0)
            &&& forall|name: Seq<char>|
                #![trigger header_fields(shown)[name]]
                name != "x-cache"@ && !is_left_out(name) && count_in(fields, name) > 0
                    && visible_text(fields[name].last()) is Some ==> header_fields(shown)[name]
                    == seq![fields[name].last()]
            &&& forall|name: Seq<char>|
                #![trigger header_fields(shown)[name]]
                name != "x-cache"@ && !is_left_out(name) && count_in(fields, name) > 0
                    && visible_text(fields[name].last()) is None ==> header_fields(shown)[name]
                    == seq![encode_utf8(Seq::<char>::empty())]
        },
{
    let fields = header_fields(*headers);
    let pairs = text_pairs(body.headers@);
    let reply = next->Serve_0;
    assert(unpacked(data) == Some((body.status, pairs, buffer_of(body.body_accum))));
    lemma_record_is_reproduced(reply, status, pairs, fields, buffer_of(body.body_accum));
    let shown = reply->headers;
    assert forall|name: Seq<char>| name != "x-cache"@ implies (#[trigger] header_fields(
        shown,
    ).contains_key(name) <==> !is_left_out(name) && count_in(fields, name) > 0) by {
        assert(stored_values(fields, name).len() == if is_left_out(name) {
            0
        } else {
            count_in(fields, name)
        });
    }
    assert forall|name: Seq<char>|
        #![trigger header_fields(shown)[name]]
        name != "x-cache"@ && !is_left_out(name) && count_in(fields, name) > 0 implies (
    visible_text(fields[name].last()) is Some ==> header_fields(shown)[name] == seq![
        fields[name].last(),
    ]) && (visible_text(fields[name].last()) is None ==> header_fields(shown)[name] == seq![
        encode_utf8(Seq::<char>::empty()),
    ]) by {
        let stored = stored_values(fields, name);
        assert(stored.len() == fields[name].len());
        assert(stored.last() == stored_value(fields[name].last()));
        assert(header_fields(shown).contains_key(name));
        assert(header_fields(shown)[name] == seq![encode_utf8(stored.last())]);
        if visible_text(fields[name].last()) is Some {
            law_visible_value_is_kept(fields[name].last());
        }
    }
}

// ---------------------------------------------------------------------------
// Settings

/// A builder starts with the documented settings, every setter changes its own setting and
/// no other, and what was set last is what the middleware and the service have.
pub proof fn law_settings_reach_the_service<S>(
    url: &str,
    fresh: RedisCacheMiddlewareBuilder,
    seconds: u64,
    with_ttl: RedisCacheMiddlewareBuilder,
    bytes: usize,
    with_size: RedisCacheMiddlewareBuilder,
    prefix: &str,
    with_prefix: RedisCacheMiddlewareBuilder,
    middleware: RedisCacheMiddleware,
    inner: S,
    service: RedisCacheMiddlewareService<S>,
)
    requires
        call_ensures(RedisCacheMiddlewareBuilder::new::<&str>, (url,), fresh),
        call_ensures(RedisCacheMiddlewareBuilder::ttl, (fresh, seconds), with_ttl),
        call_ensures(RedisCacheMiddlewareBuilder::max_cacheable_size, (with_ttl, bytes), with_size),
        call_ensures(
            RedisCacheMiddlewareBuilder::cache_prefix::<&str>,
            (with_size, prefix),
            with_prefix,
        ),
        call_ensures(RedisCacheMiddlewareBuilder::build, (with_prefix,), middleware),
        call_ensures(RedisCacheMiddleware::new_transform::<S>, (&middleware, inner), service),
    ensures
        fresh.redis_url@ == url@,
        fresh.ttl == 3600,
        fresh.max_cacheable_size == 1048576,
        fresh.cache_prefix@ == "cache:"@,
        fresh.cache_key_fn is None,
        forall|ctx: &CacheContext| #[trigger] fresh.cache_if.accepts(ctx),
        forall|ctx: &CacheContext, answer: bool| #[trigger]
            fresh.cache_if.may_answer(ctx, answer) <==> answer,
        middleware.redis_conn is None,
        service.redis_conn is None,
        *service.service == inner,
        service.redis_url@ == url@,
        service.ttl == seconds,
        service.max_cacheable_size == bytes,
        service.cache_prefix@ == prefix@,
        service.cache_if == fresh.cache_if,
        service.cache_key_fn is None,
{
}

/// A predicate that was set gives exactly the answers of the closure, and the key rule that
/// was set exactly its keys; neither touches any other setting.
pub proof fn law_rules_are_the_closures<P, K>(
    builder: RedisCacheMiddlewareBuilder,
    predicate: P,
    with_predicate: RedisCacheMiddlewareBuilder,
    key_fn: K,
    with_key: RedisCacheMiddlewareBuilder,
) where
    P: Fn(&CacheContext) -> bool + Send + Sync + 'static,
    K: Fn(&CacheContext) -> String + Send + Sync + 'static,

    requires
        call_ensures(
            RedisCacheMiddlewareBuilder::cache_if::<P>,
            (builder, predicate),
            with_predicate,
        ),
        call_ensures(
            RedisCacheMiddlewareBuilder::with_cache_key::<K>,
            (with_predicate, key_fn),
            with_key,
        ),
    ensures
        forall|ctx: &CacheContext| #[trigger]
            with_key.cache_if.accepts(ctx) <==> call_requires(predicate, (ctx,)),
        forall|ctx: &CacheContext| #[trigger]
            with_key.cache_key_fn->Some_0.accepts(ctx) <==> call_requires(key_fn, (ctx,)),
        forall|ctx: &CacheContext, answer: bool| #[trigger]
            with_key.cache_if.may_answer(ctx, answer) <==> call_ensures(
                predicate,
                (ctx,),
                answer,
            ),
        with_key.cache_key_fn is Some,
        forall|ctx: &CacheContext, key: String| #[trigger]
            with_key.cache_key_fn->Some_0.may_answer(ctx, key) <==> call_ensures(
                key_fn,
                (ctx,),
                key,
            ),
        with_predicate.cache_key_fn == builder.cache_key_fn,
        with_key.redis_url == builder.redis_url,
        with_key.ttl == builder.ttl,
        with_key.max_cacheable_size == builder.max_cacheable_size,
        with_key.cache_prefix == builder.cache_prefix,
{
}

/// A middleware for a URL is what a fresh builder for it builds, and a copy of a middleware
/// has the same settings, and a connection exactly where the middleware has one.
pub proof fn law_middleware_for_a_url(
    url: &str,
    middleware: RedisCacheMiddleware,
    fresh: RedisCacheMiddlewareBuilder,
    built: RedisCacheMiddleware,
    given: &RedisCacheMiddleware,
    copy: RedisCacheMiddleware,
)
    requires
        call_ensures(RedisCacheMiddleware::new, (url,), middleware),
        call_ensures(RedisCacheMiddlewareBuilder::new::<&str>, (url,), fresh),
        call_ensures(RedisCacheMiddlewareBuilder::build, (fresh,), built),
        call_ensures(<RedisCacheMiddleware as Clone>::clone, (given,), copy),
    ensures
        middleware.redis_conn is None && built.redis_conn is None,
        middleware.redis_url@ == url@ && built.redis_url@ == url@,
        middleware.ttl == built.ttl,
        middleware.max_cacheable_size == built.max_cacheable_size,
        middleware.cache_prefix@ == built.cache_prefix@,
        middleware.cache_key_fn is None && built.cache_key_fn is None,
        forall|ctx: &CacheContext| #[trigger] middleware.cache_if.accepts(ctx),
        forall|ctx: &CacheContext, answer: bool| #[trigger]
            middleware.cache_if.may_answer(ctx, answer) <==> answer,
        copy.redis_conn is Some <==> given.redis_conn is Some,
        copy.redis_url@ == given.redis_url@,
        copy.ttl == given.ttl,
        copy.max_cacheable_size == given.max_cacheable_size,
        copy.cache_prefix@ == given.cache_prefix@,
        copy.cache_if == given.cache_if,
        copy.cache_key_fn == given.cache_key_fn,
{
}

// ---------------------------------------------------------------------------
// What can be asked

/// Every request can be taken, every key be made, every response be looked at and every
/// record be ended, whatever they hold; a payload can be handed in whenever the rules can be
/// asked about the request.
pub proof fn law_every_input_is_taken<S>(
    service: &RedisCacheMiddlewareService<S>,
    headers: &HeaderMap,
    text: &str,
    data: &[u8],
    should_cache: bool,
    head: RequestHead,
    reader: PayloadReader,
    pending: PendingResponse,
    status: u16,
    announced: Option<u64>,
    body: CacheableBody,
    wait: AwaitEntry,
    entry: Option<Vec<u8>>,
    stored: CachedResponse,
)
    ensures
        call_requires(RedisCacheMiddlewareService::<S>::call, (service, headers)),
        call_requires(default_base_key, (text, text, text, data)),
        call_requires(store_key_of, (text, text)),
        call_requires(
            RedisCacheMiddlewareService::<S>::begin_lookup,
            (service, should_cache, text),
        ),
        call_requires(AwaitEntry::fetched, (wait, entry)),
        call_requires(CachedResponse::into_reply, (stored,)),
        call_requires(PendingResponse::poll, (pending, status, headers, announced)),
        call_requires(CacheableBody::finish, (body,)),
        (forall|ctx: &CacheContext| #[trigger]
            service.cache_if.accepts(ctx) && (service.cache_key_fn matches Some(rule)
                ==> rule.accepts(ctx))) ==> call_requires(
            RedisCacheMiddlewareService::<S>::payload_read,
            (service, head, reader),
        ),
{
    if forall|ctx: &CacheContext| #[trigger]
        service.cache_if.accepts(ctx) && (service.cache_key_fn matches Some(rule) ==> rule.accepts(
            ctx,
        )) {
        assert forall|json: &Value| service.accepts(&#[trigger] context_of(head, json)) by {
            assert(service.cache_if.accepts(&context_of(head, json)));
        }
    }
}

} // verus!
