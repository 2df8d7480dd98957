//! What holds of the cache as a whole.

use actix_web::web::Bytes;
use vstd::prelude::*;
use vstd::utf8::{encode_utf8, is_ascii_chars, is_ascii_chars_encode_utf8};

use crate::cache_control::{forbids_storing, value_forbids_caching};
use crate::context::CacheContext;
use crate::foreign::digest::{hex_digit, hex_text};
use crate::foreign::header::{
    header_fields, is_stored_name, is_visible_ascii, values_for, values_in, visible_text,
};
use crate::foreign::msgpack::{counts_fit, lengths_fit, packed, text_pairs};
use crate::foreign::text::ascii_lower;
use crate::keys::{base_key_for, body_digest, joined, standard_base_key, store_key};
use crate::lookup::{begins, carries, follows_fetch, AwaitEntry, Turn};
use crate::middleware::RedisCacheMiddlewareService;
use crate::payload::{item_bytes, stream_bytes};
use crate::record::{
    finishes, is_transfer_header, lemma_values_for_empty, lemma_values_for_step, stored_value,
    stored_values, stores_headers, written, written_key, written_ttl, CacheableBody,
    PendingResponse, WriteTurn,
};
use crate::reply::{answers, is_acceptable, replayed, Reply};

verus! {

proof fn lemma_hex_digit_injective(a: int, b: int)
    requires
        0 <= a < 16,
        0 <= b < 16,
        hex_digit(a) == hex_digit(b),
    ensures
        a == b,
{
}

/// Different bytes have different hexadecimal texts.
pub proof fn law_hex_text_injective(a: Seq<u8>, b: Seq<u8>)
    requires
        hex_text(a) == hex_text(b),
    ensures
        a == b,
{
    assert(hex_text(a).len() == 2 * a.len() && hex_text(b).len() == 2 * b.len());
    assert(a.len() == b.len());
    assert forall|i: int| 0 <= i < a.len() implies a[i] == b[i] by {
        let (x, y) = (hex_text(a), hex_text(b));
        assert((2 * i) / 2 == i && (2 * i) % 2 == 0);
        assert((2 * i + 1) / 2 == i && (2 * i + 1) % 2 == 1);
        assert(x[2 * i] == hex_digit(a[i] as int / 16) && y[2 * i] == hex_digit(b[i] as int / 16));
        assert(x[2 * i + 1] == hex_digit(a[i] as int % 16) && y[2 * i + 1] == hex_digit(
            b[i] as int % 16,
        ));
        lemma_hex_digit_injective(a[i] as int / 16, b[i] as int / 16);
        lemma_hex_digit_injective(a[i] as int % 16, b[i] as int % 16);
    }
    assert(a =~= b);
}

/// Texts that agree up to their ends after a first part without the separator agree in
/// that part and after it.
proof fn lemma_split_at_colon(a: Seq<char>, x: Seq<char>, b: Seq<char>, y: Seq<char>)
    requires
        !a.contains(':'),
        !b.contains(':'),
        a + seq![':'] + x == b + seq![':'] + y,
    ensures
        a == b,
        x == y,
{
    let s = a + seq![':'] + x;
    let t = b + seq![':'] + y;
    assert(s[a.len() as int] == ':');
    assert(t[b.len() as int] == ':');
    if a.len() < b.len() {
        assert(t[a.len() as int] == b[a.len() as int]);
        assert(b.contains(':'));
    }
    if b.len() < a.len() {
        assert(s[b.len() as int] == a[b.len() as int]);
        assert(a.contains(':'));
    }
    assert forall|i: int| 0 <= i < a.len() implies a[i] == b[i] by {
        assert(s[i] == a[i] && t[i] == b[i]);
    }
    assert(a =~= b);
    assert(s.len() == a.len() + 1 + x.len() && t.len() == b.len() + 1 + y.len());
    assert forall|i: int| 0 <= i < x.len() implies x[i] == y[i] by {
        assert(s[a.len() + 1 + i] == x[i]);
        assert(t[a.len() + 1 + i] == y[i]);
    }
    assert(x =~= y);
}

/// Everything of a base key after the method.
spec fn after_method(path: Seq<char>, query: Seq<char>, digest: Option<Seq<u8>>) -> Seq<char> {
    match digest {
        None => path + seq![':'] + query,
        Some(d) => path + seq![':'] + (query + seq![':'] + hex_text(d)),
    }
}

proof fn lemma_after_method(
    method: Seq<char>,
    path: Seq<char>,
    query: Seq<char>,
    digest: Option<Seq<u8>>,
)
    ensures
        base_key_for(method, path, query, digest) == method + seq![':'] + after_method(
            path,
            query,
            digest,
        ),
{
    assert(base_key_for(method, path, query, digest) =~= method + seq![':'] + after_method(
        path,
        query,
        digest,
    ));
}

/// Requests of different methods have different standard base keys, whatever their paths,
/// query strings and bodies. A method holds no colon.
pub proof fn law_methods_have_keys_of_their_own(
    method1: Seq<char>,
    path1: Seq<char>,
    query1: Seq<char>,
    body1: Seq<u8>,
    method2: Seq<char>,
    path2: Seq<char>,
    query2: Seq<char>,
    body2: Seq<u8>,
)
    requires
        !method1.contains(':'),
        !method2.contains(':'),
        method1 != method2,
    ensures
        standard_base_key(method1, path1, query1, body1) != standard_base_key(
            method2,
            path2,
            query2,
            body2,
        ),
{
    lemma_after_method(method1, path1, query1, body_digest(body1));
    lemma_after_method(method2, path2, query2, body_digest(body2));
    if standard_base_key(method1, path1, query1, body1) == standard_base_key(
        method2,
        path2,
        query2,
        body2,
    ) {
        lemma_split_at_colon(
            method1,
            after_method(path1, query1, body_digest(body1)),
            method2,
            after_method(path2, query2, body_digest(body2)),
        );
    }
}

/// Requests that agree in method, path and query string have the same standard base key
/// exactly when both bodies are empty or neither is and they have the same hash.
pub proof fn law_bodies_tell_keys_apart(
    method: Seq<char>,
    path: Seq<char>,
    query: Seq<char>,
    body1: Seq<u8>,
    body2: Seq<u8>,
)
    ensures
        standard_base_key(method, path, query, body1) == standard_base_key(
            method,
            path,
            query,
            body2,
        ) <==> body_digest(body1) == body_digest(body2),
{
    let head = joined(method, path, query);
    let key1 = standard_base_key(method, path, query, body1);
    let key2 = standard_base_key(method, path, query, body2);
    if key1 == key2 {
        assert(key1.len() == key2.len());
        match (body_digest(body1), body_digest(body2)) {
            (Some(d1), Some(d2)) => {
                let (x, y) = (hex_text(d1), hex_text(d2));
                assert(x.len() == y.len());
                assert forall|i: int| 0 <= i < x.len() implies x[i] == y[i] by {
                    assert(key1[head.len() + 1 + i] == x[i]);
                    assert(key2[head.len() + 1 + i] == y[i]);
                }
                assert(x =~= y);
                law_hex_text_injective(d1, d2);
            },
            _ => {},
        }
    }
}

/// Where neither method nor path holds a colon, requests without a body, and requests
/// whose bodies have digests of one length, have the same base key only if they agree in
/// method, path, query string and digest.
pub proof fn law_base_key_tells_requests_apart(
    method1: Seq<char>,
    path1: Seq<char>,
    query1: Seq<char>,
    digest1: Option<Seq<u8>>,
    method2: Seq<char>,
    path2: Seq<char>,
    query2: Seq<char>,
    digest2: Option<Seq<u8>>,
)
    requires
        !method1.contains(':'),
        !method2.contains(':'),
        !path1.contains(':'),
        !path2.contains(':'),
        match (digest1, digest2) {
            (None, None) => true,
            (Some(d1), Some(d2)) => d1.len() == d2.len(),
            _ => false,
        },
        base_key_for(method1, path1, query1, digest1) == base_key_for(
            method2,
            path2,
            query2,
            digest2,
        ),
    ensures
        method1 == method2,
        path1 == path2,
        query1 == query2,
        digest1 == digest2,
{
    lemma_after_method(method1, path1, query1, digest1);
    lemma_after_method(method2, path2, query2, digest2);
    lemma_split_at_colon(
        method1,
        after_method(path1, query1, digest1),
        method2,
        after_method(path2, query2, digest2),
    );
    match (digest1, digest2) {
        (Some(d1), Some(d2)) => {
            lemma_split_at_colon(
                path1,
                query1 + seq![':'] + hex_text(d1),
                path2,
                query2 + seq![':'] + hex_text(d2),
            );
            lemma_equal_tails(query1 + seq![':'], hex_text(d1), query2 + seq![':'], hex_text(d2));
            law_hex_text_injective(d1, d2);
            let (x, y) = (query1 + seq![':'], query2 + seq![':']);
            assert forall|i: int| 0 <= i < query1.len() implies query1[i] == query2[i] by {
                assert(x[i] == y[i]);
            }
            assert(query1 =~= query2);
        },
        _ => {
            lemma_split_at_colon(path1, query1, path2, query2);
        },
    }
}

/// Equal texts with ends of equal length have equal beginnings and equal ends.
pub(crate) proof fn lemma_equal_tails(a: Seq<char>, x: Seq<char>, b: Seq<char>, y: Seq<char>)
    requires
        a + x == b + y,
        x.len() == y.len(),
    ensures
        a == b,
        x == y,
{
    let (s, t) = (a + x, b + y);
    assert(s.len() == t.len());
    assert forall|i: int| 0 <= i < a.len() implies a[i] == b[i] by {
        assert(s[i] == t[i]);
    }
    assert(a =~= b);
    assert forall|i: int| 0 <= i < x.len() implies x[i] == y[i] by {
        assert(s[a.len() + i] == t[a.len() + i]);
    }
    assert(x =~= y);
}

/// Store keys agree only where their prefixes and digests do: caches with different
/// prefixes share no entry.
pub proof fn law_prefixes_share_no_entry(
    prefix1: Seq<char>,
    digest1: Seq<u8>,
    prefix2: Seq<char>,
    digest2: Seq<u8>,
)
    requires
        digest1.len() == digest2.len(),
        prefix1 + hex_text(digest1) == prefix2 + hex_text(digest2),
    ensures
        prefix1 == prefix2,
        digest1 == digest2,
{
    lemma_equal_tails(prefix1, hex_text(digest1), prefix2, hex_text(digest2));
    law_hex_text_injective(digest1, digest2);
}

/// One more item of a stream adds its bytes at the end: a reader, or a recorder, that has
/// taken every item of a stream holds exactly what the stream adds up to.
pub proof fn law_stream_grows_by_items<E>(
    items: Seq<Result<Bytes, E>>,
    item: Result<Bytes, E>,
)
    ensures
        stream_bytes(Seq::<Result<Bytes, E>>::empty()) == Seq::<u8>::empty(),
        stream_bytes(items.push(item)) == stream_bytes(items) + item_bytes(item),
{
    assert(items.push(item).drop_last() =~= items);
}

/// A request that the predicate refuses is not looked up, and no response to it is
/// recorded.
pub proof fn law_refused_request_leaves_no_trace<S>(
    turn: Turn,
    service: &RedisCacheMiddlewareService<S>,
    base_key: Seq<char>,
)
    requires
        begins(turn, service, false, base_key),
    ensures
        turn matches Turn::Forward(pending) && forall|
            status: u16,
            fields: Map<Seq<char>, Seq<Seq<u8>>>,
        | !pending.records(status, fields),
{
}

/// A request that the predicate accepts is looked up before the inner service is called.
pub proof fn law_accepted_request_is_looked_up<S>(
    turn: Turn,
    service: &RedisCacheMiddlewareService<S>,
    base_key: Seq<char>,
)
    requires
        begins(turn, service, true, base_key),
    ensures
        turn is Connect || turn is Fetch,
{
}

/// Without a key rule, requests that agree in method, path, query string and body have the
/// same base key.
pub proof fn law_same_request_has_the_same_key<S>(
    service: &RedisCacheMiddlewareService<S>,
    ctx1: &CacheContext,
    ctx2: &CacheContext,
    body: Seq<u8>,
    key1: Seq<char>,
    key2: Seq<char>,
)
    requires
        service.cache_key_fn is None,
        ctx1.method@ == ctx2.method@,
        ctx1.path@ == ctx2.path@,
        ctx1.query_string@ == ctx2.query_string@,
        service.may_key(ctx1, body, key1),
        service.may_key(ctx2, body, key2),
    ensures
        key1 == key2,
{
}

/// A response whose body is empty, or larger than the service's limit, is not stored.
pub proof fn law_empty_and_oversized_bodies_are_not_stored<S>(
    service: &RedisCacheMiddlewareService<S>,
    cache_key: Seq<char>,
    pending: PendingResponse,
    fields: Map<Seq<char>, Seq<Seq<u8>>>,
    body: CacheableBody,
    turn: WriteTurn,
)
    requires
        carries(pending, service, true, cache_key),
        body.records_response(pending, fields),
        body.recorded().len() == 0 || body.recorded().len() > service.max_cacheable_size,
        finishes(turn, body),
    ensures
        turn is Skip,
{
}

/// A response whose body was cut off is not stored: there was an error, or nobody read on to
/// the end or to the announced size.
pub proof fn law_partial_body_is_not_stored(body: CacheableBody, turn: WriteTurn)
    requires
        body.failed || (!body.ended && !body.at_announced_size()),
        finishes(turn, body),
    ensures
        turn is Skip,
{
}

/// A whole body that is not empty, within the service's limit, and of headers and bytes
/// that MessagePack can count is serialized with status and headers and written, unless
/// serialization fails.
pub proof fn law_whole_body_is_written<S>(
    service: &RedisCacheMiddlewareService<S>,
    cache_key: Seq<char>,
    pending: PendingResponse,
    fields: Map<Seq<char>, Seq<Seq<u8>>>,
    body: CacheableBody,
    turn: WriteTurn,
)
    requires
        carries(pending, service, true, cache_key),
        body.records_response(pending, fields),
        body.is_whole(),
        0 < body.recorded().len() <= service.max_cacheable_size,
        counts_fit(text_pairs(body.headers@), body.recorded()),
        finishes(turn, body),
    ensures
        turn is Unserialized || {
            &&& written_key(turn) == Some(cache_key)
            &&& written_ttl(turn) == Some(service.ttl)
            &&& written(turn) == Some(
                packed(body.status, text_pairs(body.headers@), body.recorded()),
            )
        },
{
}

/// A response that forbids it is never recorded, whatever the request.
pub proof fn law_forbidden_response_is_not_recorded(
    pending: PendingResponse,
    status: u16,
    fields: Map<Seq<char>, Seq<Seq<u8>>>,
    i: int,
)
    requires
        0 <= i < values_in(fields, "cache-control"@).len(),
        value_forbids_caching(values_in(fields, "cache-control"@)[i]),
    ensures
        !pending.records(status, fields),
{
}

/// A lookup that finds nothing passes the request on, with every success recorded whose
/// own headers allow it.
pub proof fn law_miss_is_recorded(
    wait: AwaitEntry,
    next: Turn,
    status: u16,
    fields: Map<Seq<char>, Seq<Seq<u8>>>,
)
    requires
        wait.pending.should_cache,
        200 <= status <= 299,
        !forbids_storing(fields),
        follows_fetch(next, wait, None),
    ensures
        next matches Turn::Forward(pending) && pending.records(status, fields)
            && pending.cache_key == wait.pending.cache_key,
{
}

/// The write of a response uses the connection that the lookup of its request used.
pub proof fn law_write_uses_the_connection_of_the_lookup(
    wait: AwaitEntry,
    pending: PendingResponse,
    fields: Map<Seq<char>, Seq<Seq<u8>>>,
    body: CacheableBody,
    turn: WriteTurn,
)
    requires
        follows_fetch(Turn::Forward(pending), wait, None),
        body.records_response(pending, fields),
        finishes(turn, body),
    ensures
        turn matches WriteTurn::Write(write) ==> write.conn == wait.conn,
        turn !is Connect,
{
}

/// No header that belongs to a connection or a transfer is stored.
pub proof fn law_transfer_headers_are_not_stored(
    pairs: Seq<(Seq<char>, Seq<char>)>,
    fields: Map<Seq<char>, Seq<Seq<u8>>>,
    i: int,
)
    requires
        stores_headers(pairs, fields),
        0 <= i < pairs.len(),
    ensures
        !is_transfer_header(pairs[i].0),
{
    let name = pairs[i].0;
    lemma_values_for_found(pairs, i);
    assert(values_for(pairs, name) == stored_values(fields, name));
}

/// A pair of a list is found under its name.
proof fn lemma_values_for_found<V>(pairs: Seq<(Seq<char>, V)>, i: int)
    requires
        0 <= i < pairs.len(),
    ensures
        values_for(pairs, pairs[i].0).len() > 0,
    decreases pairs.len(),
{
    lemma_values_for_step(pairs, pairs[i].0);
    if i < pairs.len() - 1 {
        lemma_values_for_found(pairs.drop_last(), i);
    }
}

/// The pairs with their names in lower case.
pub open spec fn lowered(pairs: Seq<(Seq<char>, Seq<char>)>) -> Seq<(Seq<char>, Seq<char>)> {
    pairs.map_values(|p: (Seq<char>, Seq<char>)| (ascii_lower(p.0), p.1))
}

/// Of several stored values under one name, in any letter case, a reply carries the last,
/// and it carries no name that was not stored.
pub proof fn law_last_value_is_replayed(pairs: Seq<(Seq<char>, Seq<char>)>, name: Seq<char>)
    ensures
        replayed(pairs).contains_key(name) <==> values_for(lowered(pairs), name).len() > 0,
        replayed(pairs).contains_key(name) ==> replayed(pairs)[name] == seq![
            encode_utf8(values_for(lowered(pairs), name).last()),
        ],
    decreases pairs.len(),
{
    if pairs.len() == 0 {
        lemma_values_for_empty(lowered(pairs), name);
    } else {
        law_last_value_is_replayed(pairs.drop_last(), name);
        lemma_values_for_step(lowered(pairs), name);
        assert(lowered(pairs).drop_last() =~= lowered(pairs.drop_last()));
    }
}

/// Plain text is stored and sent as the bytes it came as.
pub proof fn law_visible_value_is_kept(value: Seq<u8>)
    requires
        visible_text(value) is Some,
    ensures
        encode_utf8(stored_value(value)) == value,
{
    let text = stored_value(value);
    assert forall|i: int| 0 <= i < value.len() implies is_visible_ascii(#[trigger] value[i])
        && text[i] == value[i] as char by {}
    assert(is_ascii_chars(text)) by {
        assert forall|i: int| 0 <= i < text.len() implies 0 <= (#[trigger] text[i] as nat) < 128 by {
            assert(is_visible_ascii(value[i]));
        }
    }
    is_ascii_chars_encode_utf8(text);
    assert(encode_utf8(text) =~= value) by {
        assert forall|i: int| 0 <= i < value.len() implies encode_utf8(text)[i] == value[i] by {
            assert(is_visible_ascii(value[i]));
        }
    }
}

/// Every reply that carries a stored response is marked as a hit.
pub proof fn law_hits_are_marked(
    reply: Reply,
    parts: (u16, Seq<(Seq<char>, Seq<char>)>, Seq<u8>),
)
    requires
        answers(reply, parts),
    ensures
        reply matches Reply::Response { headers, .. } ==> header_fields(headers).contains_key(
            "x-cache"@,
        ) && header_fields(headers)["x-cache"@] == seq![encode_utf8("HIT"@)],
{
}

/// The reply `served` carries the response of this status, these header fields and this
/// body: the status and the body as they were; of every name that is stored, the last
/// value; the mark of a hit; and no other header.
pub open spec fn reproduces(
    served: Reply,
    status: u16,
    fields: Map<Seq<char>, Seq<Seq<u8>>>,
    body: Seq<u8>,
) -> bool {
    served matches Reply::Response { status: s, headers, body: b } && {
        &&& s == status
        &&& b@ == body
        &&& header_fields(headers)["x-cache"@] == seq![encode_utf8("HIT"@)]
        &&& forall|name: Seq<char>|
            {
                let stored = stored_values(fields, name);
                &&& #[trigger] header_fields(headers).contains_key(name) <==> stored.len() > 0
                    || name == "x-cache"@
                &&& stored.len() > 0 && name != "x-cache"@ ==> header_fields(headers)[name]
                    == seq![encode_utf8(stored.last())]
            }
    }
}

/// A reply to what was recorded of a successful response reproduces that response.
pub(crate) proof fn lemma_record_is_reproduced(
    reply: Reply,
    status: u16,
    pairs: Seq<(Seq<char>, Seq<char>)>,
    fields: Map<Seq<char>, Seq<Seq<u8>>>,
    body: Seq<u8>,
)
    requires
        200 <= status <= 299,
        stores_headers(pairs, fields),
        answers(reply, (status, pairs, body)),
    ensures
        reproduces(reply, status, fields, body),
{
    match reply {
        Reply::Rejected { name, value } => {
            let i = choose|i: int|
                0 <= i < pairs.len() && #[trigger] pairs[i] == (name@, value@) && !is_acceptable(
                    (name@, value@),
                );
            assert(is_acceptable(pairs[i]));
        },
        Reply::Response { status: s, headers, body: b } => {
            assert(lowered(pairs) =~= pairs) by {
                assert forall|i: int| 0 <= i < pairs.len() implies lowered(pairs)[i]
                    == pairs[i] by {
                    assert(is_stored_name(pairs[i].0));
                }
            }
            assert forall|name: Seq<char>|
                {
                    let stored = stored_values(fields, name);
                    &&& #[trigger] header_fields(headers).contains_key(name) <==> stored.len() > 0
                        || name == "x-cache"@
                    &&& stored.len() > 0 && name != "x-cache"@ ==> header_fields(headers)[name]
                        == seq![encode_utf8(stored.last())]
                } by {
                law_last_value_is_replayed(pairs, name);
                assert(values_for(pairs, name) == stored_values(fields, name));
            }
        },
    }
}

/// What is written is what is read: a response that was recorded to its end and written is
/// looked up again under the same key by every later request with the same base key and
/// prefix, stays for the service's time to live, and is reproduced for that request, where
/// MessagePack can hold its lengths.
///
/// `pending` is the first request on its way to the inner service, `fields` are the header
/// fields of the response to it, `body` is the finished record of that response, and
/// `write` what was left to do with it; `wait` is the lookup of the later request, and
/// `next` what follows when the lookup finds what was written.
pub proof fn law_what_is_written_is_served<S, T>(
    service: &RedisCacheMiddlewareService<S>,
    base_key: Seq<char>,
    pending: PendingResponse,
    fields: Map<Seq<char>, Seq<Seq<u8>>>,
    body: CacheableBody,
    write: WriteTurn,
    later: &RedisCacheMiddlewareService<T>,
    wait: AwaitEntry,
    next: Turn,
)
    requires
        carries(pending, service, true, store_key(service.cache_prefix@, base_key)),
        body.records_response(pending, fields),
        lengths_fit(text_pairs(body.headers@), body.recorded()),
        finishes(write, body),
        written(write) is Some,
        later.cache_prefix@ == service.cache_prefix@,
        carries(wait.pending, later, true, store_key(later.cache_prefix@, base_key)),
        follows_fetch(next, wait, written(write)),
    ensures
        written_key(write) == Some(wait.pending.cache_key@),
        written_ttl(write) == Some(service.ttl),
        next matches Turn::Serve(reply) && reproduces(reply, body.status, fields, body.recorded()),
{
    let reply = next->Serve_0;
    lemma_record_is_reproduced(
        reply,
        body.status,
        text_pairs(body.headers@),
        fields,
        body.recorded(),
    );
}

} // verus!
