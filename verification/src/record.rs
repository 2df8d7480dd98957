//! Recording: which responses are kept, what of their headers, and what is written to the
//! store when a body ends.

use actix_web::http::header::HeaderMap;
use actix_web::web::{Bytes, BytesMut};
use redis::aio::MultiplexedConnection;
use vstd::prelude::*;
use vstd::slice::slice_to_vec;

use crate::cache_control::{forbids_storing, stays_out_of_cache};
use crate::foreign::bytes::{buffer_of, buffer_slice, bytes_of, chunk_slice};
use crate::foreign::header::{
    header_fields, header_pairs, header_value_text, is_header_value, is_stored_name,
    is_visible_ascii, raw_pairs, status_is_success, values_for, values_in, visible_text,
};
use crate::foreign::msgpack::{counts_fit, lengths_fit, pack, packed, text_pairs, unpacked};
use crate::foreign::text::{lowercase, text_to_lowercase};
use crate::payload::item_bytes;
use crate::reply::is_acceptable;

verus! {

/// A header that belongs to one connection or one transfer and is not stored.
pub open spec fn is_transfer_header(name: Seq<char>) -> bool {
    let lower = lowercase(name);
    lower == "connection"@ || lower == "transfer-encoding"@ || lower == "content-length"@
}

/// The text that is stored for a raw header value: empty where it is not all visible
/// ASCII.
pub open spec fn stored_value(value: Seq<u8>) -> Seq<char> {
    match visible_text(value) {
        Some(text) => text,
        None => Seq::empty(),
    }
}

/// What is stored of a list of headers, in the same order.
pub open spec fn kept_pairs(raw: Seq<(Seq<char>, Seq<u8>)>) -> Seq<(Seq<char>, Seq<char>)>
    decreases raw.len(),
{
    if raw.len() == 0 {
        Seq::empty()
    } else {
        let kept = kept_pairs(raw.drop_last());
        let (name, value) = raw.last();
        if is_transfer_header(name) {
            kept
        } else {
            kept.push((name, stored_value(value)))
        }
    }
}

/// The values that are stored under `name` of these header fields, in order.
pub open spec fn stored_values(fields: Map<Seq<char>, Seq<Seq<u8>>>, name: Seq<char>) -> Seq<
    Seq<char>,
> {
    if is_transfer_header(name) {
        Seq::empty()
    } else {
        values_in(fields, name).map_values(|v: Seq<u8>| stored_value(v))
    }
}

/// `pairs` is what is stored of these header fields. The order among different names is
/// left open.
pub open spec fn stores_headers(
    pairs: Seq<(Seq<char>, Seq<char>)>,
    fields: Map<Seq<char>, Seq<Seq<u8>>>,
) -> bool {
    &&& forall|name: Seq<char>| #[trigger] values_for(pairs, name) == stored_values(fields, name)
    &&& forall|i: int|
        0 <= i < pairs.len() ==> is_stored_name((#[trigger] pairs[i]).0) && is_acceptable(pairs[i])
}

/// A request on its way to the inner service, with what is needed to record its response.
pub struct PendingResponse {
    /// The response is to be recorded if it is a success
    pub should_cache: bool,
    /// The store key of the request
    pub cache_key: String,
    /// The connection that the lookup used
    pub redis_conn: Option<MultiplexedConnection>,
    /// The Redis connection URL
    pub redis_url: String,
    /// Seconds that the response remains in the cache
    pub ttl: u64,
    /// The size in bytes of the largest body that is cached
    pub max_cacheable_size: usize,
}

/// A response body on its way to the client, recorded chunk by chunk.
pub struct CacheableBody {
    /// The status code of the response
    pub status: u16,
    /// What is stored of the response's headers
    pub headers: Vec<(String, String)>,
    /// The bytes of the chunks so far
    pub body_accum: BytesMut,
    /// The size in bytes that the body announced, where it did
    pub announced: Option<u64>,
    /// The body has come to its end
    pub ended: bool,
    /// The body has reported an error
    pub failed: bool,
    /// The store key of the request
    pub cache_key: String,
    /// The connection that the lookup used
    pub redis_conn: Option<MultiplexedConnection>,
    /// The Redis connection URL
    pub redis_url: String,
    /// Seconds that the response remains in the cache
    pub ttl: u64,
    /// The size in bytes of the largest body that is cached
    pub max_size: usize,
}

/// A write that waits for a connection to the store.
pub struct UnconnectedWrite {
    /// The Redis connection URL
    pub redis_url: String,
    /// The key to write
    pub cache_key: String,
    /// The stored response, serialized
    pub data: Vec<u8>,
    /// Seconds until the entry expires
    pub ttl: u64,
}

/// A write that is ready to be sent to the store.
pub struct StoreWrite {
    /// The connection to send it on
    pub conn: MultiplexedConnection,
    /// The key to write
    pub cache_key: String,
    /// The stored response, serialized
    pub data: Vec<u8>,
    /// Seconds until the entry expires
    pub ttl: u64,
}

/// What is left to do when a recorded body has ended.
pub enum WriteTurn {
    /// The response is not one to be stored
    Skip,
    /// The response is one to be stored, but could not be serialized; nothing is stored
    Unserialized,
    /// Connect to the store, then go on with the write
    Connect(UnconnectedWrite),
    /// Send the write; its outcome does not matter
    Write(StoreWrite),
}

impl PendingResponse {
    /// A response of this status and these header fields is recorded: it was asked for,
    /// the status is a success, and no `Cache-Control` of the response forbids it.
    pub open spec fn records(&self, status: u16, fields: Map<Seq<char>, Seq<Seq<u8>>>) -> bool {
        self.should_cache && 200 <= status <= 299 && !forbids_storing(fields)
    }

    /// Looks at the head of the inner service's response, and at the size that its body
    /// announces. A recorder comes back where the body is to be recorded; otherwise the
    /// response goes to the client as it is.
    pub fn poll(self, status: u16, headers: &HeaderMap, announced: Option<u64>) -> (recorder:
        Option<CacheableBody>)
        ensures
            recorder is Some <==> self.records(status, header_fields(*headers)),
            recorder matches Some(body) ==> {
                &&& body.status == status
                &&& body.records_response(self, header_fields(*headers))
                &&& body.recorded() == Seq::<u8>::empty()
                &&& body.announced == announced
                &&& !body.ended
                &&& !body.failed
            },
    {
        if !(self.should_cache && status_is_success(status)) || stays_out_of_cache(headers) {
            return None;
        }
        Some(
            CacheableBody {
                status,
                headers: stored_headers(headers),
                body_accum: BytesMut::new(),
                announced,
                ended: false,
                failed: false,
                cache_key: self.cache_key,
                redis_conn: self.redis_conn,
                redis_url: self.redis_url,
                ttl: self.ttl,
                max_size: self.max_cacheable_size,
            },
        )
    }
}

/// The header belongs to one connection or one transfer.
pub fn names_transfer_header(name: &str) -> (found: bool)
    ensures
        found == is_transfer_header(name@),
{
    let lower = text_to_lowercase(name);
    lower == String::from("connection") || lower == String::from("transfer-encoding") || lower
        == String::from("content-length")
}

/// Keeps the headers that are stored, with the text of their values.
pub fn keep_headers(raw: &Vec<(String, Vec<u8>)>) -> (kept: Vec<(String, String)>)
    ensures
        text_pairs(kept@) == kept_pairs(raw_pairs(raw@)),
{
    let ghost pairs = raw_pairs(raw@);
    let mut kept: Vec<(String, String)> = Vec::new();
    let mut i: usize = 0;
    assert(pairs.take(0) =~= Seq::empty());
    assert(text_pairs(kept@) =~= Seq::empty());
    while i < raw.len()
        invariant
            i <= raw@.len(),
            pairs == raw_pairs(raw@),
            text_pairs(kept@) == kept_pairs(pairs.take(i as int)),
        decreases raw@.len() - i,
    {
        let ghost before = kept@;
        proof {
            assert(pairs.take(i + 1).drop_last() =~= pairs.take(i as int));
            assert(pairs.take(i + 1).last() == (raw@[i as int].0@, raw@[i as int].1@));
        }
        if !names_transfer_header(raw[i].0.as_str()) {
            let value = match header_value_text(raw[i].1.as_slice()) {
                Some(text) => text,
                None => String::new(),
            };
            kept.push((raw[i].0.clone(), value));
            proof {
                assert(text_pairs(kept@) =~= text_pairs(before).push(
                    (raw@[i as int].0@, stored_value(raw@[i as int].1@)),
                ));
            }
        }
        i += 1;
    }
    assert(pairs.take(i as int) =~= pairs);
    kept
}

/// What is stored of a response's headers.
pub fn stored_headers(headers: &HeaderMap) -> (kept: Vec<(String, String)>)
    ensures
        stores_headers(text_pairs(kept@), header_fields(*headers)),
{
    let raw = header_pairs(headers);
    let kept = keep_headers(&raw);
    proof {
        let pairs = raw_pairs(raw@);
        assert forall|name: Seq<char>| #[trigger]
            values_for(text_pairs(kept@), name) == stored_values(
                header_fields(*headers),
                name,
            ) by {
            lemma_kept_values(pairs, name);
            assert(values_for(pairs, name) == values_in(header_fields(*headers), name));
        }
        assert forall|i: int| 0 <= i < pairs.len() implies is_stored_name(
            (#[trigger] pairs[i]).0,
        ) by {
            assert(pairs[i].0 == raw@[i].0@);
        }
        lemma_kept_acceptable(pairs);
    }
    kept
}

/// Values of one name are found in an extended list as in the shorter one, with the last
/// one added where it has that name.
pub(crate) proof fn lemma_values_for_step<V>(pairs: Seq<(Seq<char>, V)>, name: Seq<char>)
    requires
        pairs.len() > 0,
    ensures
        values_for(pairs, name) == if pairs.last().0 == name {
            values_for(pairs.drop_last(), name).push(pairs.last().1)
        } else {
            values_for(pairs.drop_last(), name)
        },
{
    let pred = |p: (Seq<char>, V)| p.0 == name;
    let value = |p: (Seq<char>, V)| p.1;
    reveal_with_fuel(Seq::filter, 2);
    let shorter = pairs.drop_last().filter(pred);
    if pairs.last().0 == name {
        assert(pairs.filter(pred) == shorter.push(pairs.last()));
        assert(shorter.push(pairs.last()).map_values(value) =~= shorter.map_values(value).push(
            pairs.last().1,
        ));
    } else {
        assert(pairs.filter(pred) == shorter);
    }
}

/// No list, no values.
pub(crate) proof fn lemma_values_for_empty<V>(pairs: Seq<(Seq<char>, V)>, name: Seq<char>)
    requires
        pairs.len() == 0,
    ensures
        values_for(pairs, name) == Seq::<V>::empty(),
{
    reveal_with_fuel(Seq::filter, 1);
    assert(values_for(pairs, name) =~= Seq::<V>::empty());
}

/// The values that are kept under a name are those of the whole list, in text form.
proof fn lemma_kept_values(raw: Seq<(Seq<char>, Seq<u8>)>, name: Seq<char>)
    ensures
        values_for(kept_pairs(raw), name) == if is_transfer_header(name) {
            Seq::empty()
        } else {
            values_for(raw, name).map_values(|v: Seq<u8>| stored_value(v))
        },
    decreases raw.len(),
{
    let text = |v: Seq<u8>| stored_value(v);
    if raw.len() == 0 {
        lemma_values_for_empty(raw, name);
        lemma_values_for_empty(kept_pairs(raw), name);
        assert(values_for(raw, name).map_values(text) =~= Seq::empty());
    } else {
        lemma_kept_values(raw.drop_last(), name);
        lemma_values_for_step(raw, name);
        let kept = kept_pairs(raw.drop_last());
        if !is_transfer_header(raw.last().0) {
            lemma_values_for_step(kept_pairs(raw), name);
            assert(kept_pairs(raw).drop_last() =~= kept);
        }
        let shorter = values_for(raw.drop_last(), name);
        assert(shorter.push(raw.last().1).map_values(text) =~= shorter.map_values(text).push(
            stored_value(raw.last().1),
        ));
    }
}

/// Every stored value can be carried as a header value.
pub(crate) proof fn lemma_stored_value_acceptable(value: Seq<u8>)
    ensures
        is_header_value(stored_value(value)),
{
    if let Some(text) = visible_text(value) {
        assert forall|i: int| 0 <= i < text.len() implies (#[trigger] text[i] >= ' ' && text[i]
            != '\u{7f}') || text[i] == '\t' by {
            assert(is_visible_ascii(value[i]));
        }
    }
}

/// Everything that is kept of valid headers can be carried as a header.
proof fn lemma_kept_acceptable(raw: Seq<(Seq<char>, Seq<u8>)>)
    requires
        forall|i: int| 0 <= i < raw.len() ==> is_stored_name((#[trigger] raw[i]).0),
    ensures
        forall|i: int|
            0 <= i < kept_pairs(raw).len() ==> is_stored_name((#[trigger] kept_pairs(raw)[i]).0)
                && is_acceptable(kept_pairs(raw)[i]),
    decreases raw.len(),
{
    if raw.len() > 0 {
        assert forall|i: int| 0 <= i < raw.drop_last().len() implies is_stored_name(
            (#[trigger] raw.drop_last()[i]).0,
        ) by {
            assert(raw.drop_last()[i] == raw[i]);
        }
        lemma_kept_acceptable(raw.drop_last());
        lemma_stored_value_acceptable(raw.last().1);
        assert(is_stored_name(raw[raw.len() - 1].0));
        let kept = kept_pairs(raw.drop_last());
        assert forall|i: int| 0 <= i < kept_pairs(raw).len() implies is_stored_name(
            (#[trigger] kept_pairs(raw)[i]).0,
        ) && is_acceptable(kept_pairs(raw)[i]) by {
            if i < kept.len() {
                assert(kept_pairs(raw)[i] == kept[i]);
            }
        }
    }
}

/// A whole body is stored: it is not empty and not larger than the limit.
pub open spec fn is_storable(body: Seq<u8>, max_size: usize) -> bool {
    0 < body.len() <= max_size
}

impl CacheableBody {
    /// The bytes that have been recorded.
    pub open spec fn recorded(&self) -> Seq<u8> {
        buffer_of(self.body_accum)
    }

    /// As many bytes have been recorded as the body announced.
    pub open spec fn at_announced_size(&self) -> bool {
        self.announced matches Some(size) && size == self.recorded().len()
    }

    /// All of the body has been recorded: there was no error, and it has come to its end or
    /// to the size that it announced.
    pub open spec fn is_whole(&self) -> bool {
        &&& !self.failed
        &&& self.ended || self.at_announced_size()
    }

    /// The response is one to be stored: its body is whole, not empty and not larger than
    /// the limit, and MessagePack can count its headers and bytes.
    pub open spec fn is_to_be_stored(&self) -> bool {
        &&& self.is_whole()
        &&& is_storable(self.recorded(), self.max_size)
        &&& counts_fit(text_pairs(self.headers@), self.recorded())
    }

    /// The three parts of the response as far as it has been recorded.
    pub open spec fn parts(&self) -> (u16, Seq<(Seq<char>, Seq<char>)>, Seq<u8>) {
        (self.status, text_pairs(self.headers@), self.recorded())
    }

    /// The record is one of a response to `pending` with these header fields.
    pub open spec fn records_response(
        &self,
        pending: PendingResponse,
        fields: Map<Seq<char>, Seq<Seq<u8>>>,
    ) -> bool {
        &&& pending.records(self.status, fields)
        &&& stores_headers(text_pairs(self.headers@), fields)
        &&& self.cache_key == pending.cache_key
        &&& self.redis_conn == pending.redis_conn
        &&& self.redis_url == pending.redis_url
        &&& self.ttl == pending.ttl
        &&& self.max_size == pending.max_cacheable_size
    }

    /// Takes what the inner body was ready with: a chunk is recorded, an error or the end
    /// is noted. The client gets the same item.
    pub fn poll_next<E>(&mut self, ready: Option<Result<Bytes, E>>) -> (item: Option<
        Result<Bytes, E>,
    >)
        requires
            ready matches Some(i) ==> old(self).recorded().len() + item_bytes(i).len()
                <= isize::MAX,
        ensures
            item == ready,
            final(self).recorded() == old(self).recorded() + match ready {
                Some(i) => item_bytes(i),
                None => Seq::empty(),
            },
            ready matches Some(Ok(chunk)) ==> final(self).recorded() == old(self).recorded()
                + bytes_of(chunk),
            final(self).ended == (old(self).ended || ready is None),
            final(self).failed == (old(self).failed || ready matches Some(Err(_))),
            *final(self) == (CacheableBody {
                body_accum: final(self).body_accum,
                ended: final(self).ended,
                failed: final(self).failed,
                ..*old(self)
            }),
    {
        match &ready {
            Some(Ok(chunk)) => {
                self.body_accum.extend_from_slice(chunk_slice(chunk));
            },
            Some(Err(_)) => {
                self.failed = true;
            },
            None => {
                self.ended = true;
            },
        }
        ready
    }

    /// The recorded body is worth a write to the store: it is whole, not empty and not
    /// larger than the limit.
    pub fn is_cacheable(&self) -> (cacheable: bool)
        ensures
            cacheable == (self.is_whole() && is_storable(self.recorded(), self.max_size)),
    {
        let body = buffer_slice(&self.body_accum);
        let whole = !self.failed && (self.ended || match self.announced {
            Some(size) => size == body.len() as u64,
            None => false,
        });
        whole && body.len() != 0 && body.len() <= self.max_size
    }

    /// Starts the write with what serialization gave, where the body is worth it: none
    /// where serialization failed, at once where there is a connection, after connecting
    /// otherwise.
    pub fn begin_write(self, serialized: Option<Vec<u8>>) -> (turn: WriteTurn)
        ensures
            !(self.is_whole() && is_storable(self.recorded(), self.max_size)) ==> turn is Skip,
            self.is_whole() && is_storable(self.recorded(), self.max_size) ==> match serialized {
                None => turn is Unserialized,
                Some(data) => writes(turn, self, data@),
            },
    {
        if !self.is_cacheable() {
            return WriteTurn::Skip;
        }
        match serialized {
            None => WriteTurn::Unserialized,
            Some(data) => {
                let write = UnconnectedWrite {
                    redis_url: self.redis_url,
                    cache_key: self.cache_key,
                    data,
                    ttl: self.ttl,
                };
                match self.redis_conn {
                    None => WriteTurn::Connect(write),
                    Some(conn) => WriteTurn::Write(write.connected(conn)),
                }
            },
        }
    }

    /// Ends the recording: a body that is worth it is serialized, together with status and
    /// headers, and written under the key of the request.
    ///
    /// It is left open whether serialization succeeds: it fails where memory runs out.
    pub fn finish(self) -> (turn: WriteTurn)
        ensures
            finishes(turn, self),
    {
        if !self.is_cacheable() {
            return WriteTurn::Skip;
        }
        let counted = buffer_slice(&self.body_accum).len();
        if counted > u32::MAX as usize || self.headers.len() > u32::MAX as usize {
            return WriteTurn::Skip;
        }
        let body = slice_to_vec(buffer_slice(&self.body_accum));
        let serialized = pack(self.status, &self.headers, &body);
        self.begin_write(serialized)
    }
}

/// The data that `turn` writes.
pub open spec fn written(turn: WriteTurn) -> Option<Seq<u8>> {
    match turn {
        WriteTurn::Skip => None,
        WriteTurn::Unserialized => None,
        WriteTurn::Connect(write) => Some(write.data@),
        WriteTurn::Write(write) => Some(write.data@),
    }
}

/// The key under which `turn` writes.
pub open spec fn written_key(turn: WriteTurn) -> Option<Seq<char>> {
    match turn {
        WriteTurn::Skip => None,
        WriteTurn::Unserialized => None,
        WriteTurn::Connect(write) => Some(write.cache_key@),
        WriteTurn::Write(write) => Some(write.cache_key@),
    }
}

/// The time to live that `turn` writes with.
pub open spec fn written_ttl(turn: WriteTurn) -> Option<u64> {
    match turn {
        WriteTurn::Skip => None,
        WriteTurn::Unserialized => None,
        WriteTurn::Connect(write) => Some(write.ttl),
        WriteTurn::Write(write) => Some(write.ttl),
    }
}

/// `turn` is what is left to do for the finished record `body`. It is skipped exactly where
/// it is not one to be stored; otherwise the serialized response is written, unless
/// serialization failed. What is written reads back as the response where MessagePack can
/// hold its lengths.
pub open spec fn finishes(turn: WriteTurn, body: CacheableBody) -> bool {
    &&& turn is Skip <==> !body.is_to_be_stored()
    &&& turn is Skip || turn is Unserialized || writes(
        turn,
        body,
        packed(body.status, text_pairs(body.headers@), body.recorded()),
    )
    &&& written(turn) matches Some(data) ==> (lengths_fit(
        text_pairs(body.headers@),
        body.recorded(),
    ) ==> unpacked(data) == Some(body.parts()))
}

/// `turn` writes `data` for the finished record `body`: at once where it has a connection,
/// after connecting otherwise.
pub open spec fn writes(turn: WriteTurn, body: CacheableBody, data: Seq<u8>) -> bool {
    match turn {
        WriteTurn::Skip => false,
        WriteTurn::Unserialized => false,
        WriteTurn::Connect(write) => {
            &&& body.redis_conn is None
            &&& write.redis_url == body.redis_url
            &&& write.cache_key == body.cache_key
            &&& write.ttl == body.ttl
            &&& write.data@ == data
        },
        WriteTurn::Write(write) => {
            &&& body.redis_conn == Some(write.conn)
            &&& write.cache_key == body.cache_key
            &&& write.ttl == body.ttl
            &&& write.data@ == data
        },
    }
}

impl UnconnectedWrite {
    /// Goes on with the write once the store is connected.
    pub fn connected(self, conn: MultiplexedConnection) -> (write: StoreWrite)
        ensures
            write == (StoreWrite { conn, cache_key: self.cache_key, data: self.data, ttl: self.ttl }),
    {
        StoreWrite { conn, cache_key: self.cache_key, data: self.data, ttl: self.ttl }
    }
}

} // verus!
