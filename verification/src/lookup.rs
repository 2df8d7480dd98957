//! The course of a request through the cache, up to the reply from the store or the call
//! of the inner service.
//!
//! Each function takes what has happened and hands out what is to be done next. The steps
//! that involve the network carry a value whose one method takes the outcome:
//! [`RedisCacheMiddlewareService::call`] comes first, then the payload is read, then
//! [`RedisCacheMiddlewareService::payload_read`] hands out the first [`Turn`].

use actix_web::http::header::HeaderMap;
use actix_web::web::Bytes;
use redis::aio::MultiplexedConnection;
use vstd::prelude::*;

use crate::cache_control::{forbids_caching, skips_cache};
use crate::context::{body_json, parse_body, CacheContext};
use crate::foreign::bytes::{buffer_slice, bytes_of};
use crate::foreign::header::header_fields;
use crate::foreign::msgpack::unpacked;
use crate::keys::{default_base_key, standard_base_key, store_key, store_key_of};
use crate::middleware::RedisCacheMiddlewareService;
use crate::payload::PayloadReader;
use crate::record::PendingResponse;
use crate::reply::{answers, parts_of, CachedResponse, Reply};

verus! {

/// The head of a request.
pub struct RequestHead<'a> {
    /// The HTTP method
    pub method: &'a str,
    /// The request path
    pub path: &'a str,
    /// The query string, empty where there is none
    pub query_string: &'a str,
    /// The headers
    pub headers: &'a HeaderMap,
}

/// Whether a request takes part in caching.
pub enum Admission {
    /// It does not: the inner service is called, and its response goes to the client as
    /// it is
    Bypass,
    /// It does: its payload is read next
    Read(PayloadReader),
}

/// What is to be done for a request.
pub enum Turn {
    /// Connect to the store
    Connect(AwaitConnection),
    /// Fetch the entry under the request's key
    Fetch(AwaitEntry),
    /// Read the entry as a map from field names to fields
    Decode(AwaitDecoded),
    /// Send a reply; the inner service is not called
    Serve(Reply),
    /// Call the inner service
    Forward(PendingResponse),
}

/// A lookup that waits for a connection to the store.
pub struct AwaitConnection {
    /// The request
    pub pending: PendingResponse,
}

/// A lookup that waits for the entry under its key.
pub struct AwaitEntry {
    /// The connection to fetch it on
    pub conn: MultiplexedConnection,
    /// The request
    pub pending: PendingResponse,
}

/// A lookup that waits for an entry to be read that is no array of fields.
pub struct AwaitDecoded {
    /// The entry
    pub data: Vec<u8>,
    /// The request
    pub pending: PendingResponse,
}

/// The context of a request for predicates and key functions.
pub open spec fn context_of<'a>(head: RequestHead<'a>, body: &'a serde_json::Value) -> CacheContext<
    'a,
> {
    CacheContext {
        method: head.method,
        path: head.path,
        query_string: head.query_string,
        headers: head.headers,
        body,
    }
}

/// The request `pending` with its connection in place.
pub open spec fn with_conn(pending: PendingResponse, conn: MultiplexedConnection) -> PendingResponse {
    PendingResponse { redis_conn: Some(conn), ..pending }
}

/// A request that the service passes on under this key, with the service's settings. The
/// key is the service's prefix and 64 characters.
pub open spec fn carries<S>(
    pending: PendingResponse,
    service: &RedisCacheMiddlewareService<S>,
    should_cache: bool,
    cache_key: Seq<char>,
) -> bool {
    &&& pending.should_cache == should_cache
    &&& pending.cache_key@ == cache_key
    &&& pending.cache_key@.len() == service.cache_prefix@.len() + 64
    &&& pending.redis_url == service.redis_url
    &&& pending.ttl == service.ttl
    &&& pending.max_cacheable_size == service.max_cacheable_size
}

/// `turn` is the first one for a request with this base key: a request that is not to be
/// cached goes to the inner service, any other one is looked up, after connecting where
/// the service has no connection.
pub open spec fn begins<S>(
    turn: Turn,
    service: &RedisCacheMiddlewareService<S>,
    should_cache: bool,
    base_key: Seq<char>,
) -> bool {
    let key = store_key(service.cache_prefix@, base_key);
    match turn {
        Turn::Forward(pending) => {
            &&& !should_cache
            &&& carries(pending, service, should_cache, key)
            &&& pending.redis_conn is Some <==> service.redis_conn is Some
        },
        Turn::Connect(wait) => {
            &&& should_cache
            &&& service.redis_conn is None
            &&& carries(wait.pending, service, should_cache, key)
        },
        Turn::Fetch(wait) => {
            &&& should_cache
            &&& service.redis_conn is Some
            &&& carries(wait.pending, service, should_cache, key)
        },
        Turn::Decode(_) => false,
        Turn::Serve(_) => false,
    }
}

impl<S> RedisCacheMiddlewareService<S> {
    /// The service may give a request of this context and body the base key `key`.
    pub open spec fn may_key(&self, ctx: &CacheContext, body: Seq<u8>, key: Seq<char>) -> bool {
        match self.cache_key_fn {
            Some(rule) => exists|text: String| #[trigger]
                rule.may_answer(ctx, text) && text@ == key,
            None => key == standard_base_key(
                ctx.method@,
                ctx.path@,
                ctx.query_string@,
                body,
            ),
        }
    }

    /// `turn` is the first one for a request of this context and body, with answers that
    /// the service's rules may give.
    pub open spec fn may_begin(&self, turn: Turn, ctx: &CacheContext, body: Seq<u8>) -> bool {
        exists|should_cache: bool, base_key: Seq<char>|
            #![trigger begins(turn, self, should_cache, base_key)]
            self.cache_if.may_answer(ctx, should_cache) && self.may_key(ctx, body, base_key)
                && begins(turn, self, should_cache, base_key)
    }

    /// The service's rules can be asked about `ctx`.
    pub open spec fn accepts(&self, ctx: &CacheContext) -> bool {
        &&& self.cache_if.accepts(ctx)
        &&& self.cache_key_fn matches Some(rule) ==> rule.accepts(ctx)
    }

    /// Takes a request by its headers: one that forbids caching passes by the cache.
    pub fn call(&self, headers: &HeaderMap) -> (admission: Admission)
        ensures
            match admission {
                Admission::Bypass => forbids_caching(header_fields(*headers)),
                Admission::Read(reader) => {
                    &&& !forbids_caching(header_fields(*headers))
                    &&& reader.bytes() == Seq::<u8>::empty()
                },
            },
    {
        if skips_cache(headers) {
            Admission::Bypass
        } else {
            Admission::Read(PayloadReader::new())
        }
    }

    /// The base key of a request: what the service's rule says, or the standard one.
    pub fn base_key(&self, ctx: &CacheContext, body: &[u8]) -> (key: String)
        requires
            self.cache_key_fn matches Some(rule) ==> rule.accepts(ctx),
        ensures
            self.may_key(ctx, body@, key@),
    {
        match &self.cache_key_fn {
            Some(rule) => rule.base_key(ctx),
            None => default_base_key(ctx.method, ctx.path, ctx.query_string, body),
        }
    }

    /// Starts the lookup of a request, once the rules have been asked.
    pub fn begin_lookup(&self, should_cache: bool, base_key: &str) -> (turn: Turn)
        ensures
            begins(turn, self, should_cache, base_key@),
    {
        let pending = PendingResponse {
            should_cache,
            cache_key: store_key_of(self.cache_prefix.as_str(), base_key),
            redis_conn: None,
            redis_url: self.redis_url.clone(),
            ttl: self.ttl,
            max_cacheable_size: self.max_cacheable_size,
        };
        let redis_conn = self.redis_conn.clone();
        if !should_cache {
            let mut pending = pending;
            pending.redis_conn = redis_conn;
            return Turn::Forward(pending);
        }
        match redis_conn {
            None => Turn::Connect(AwaitConnection { pending }),
            Some(conn) => Turn::Fetch(AwaitEntry { conn, pending }),
        }
    }

    /// Goes on once a request's payload has been read: the rules are asked, and the lookup
    /// starts. The payload comes back, to be put on the request again before anything else.
    pub fn payload_read(&self, head: RequestHead, reader: PayloadReader) -> (next: (Bytes, Turn))
        requires
            forall|json: &serde_json::Value| self.accepts(&#[trigger] context_of(head, json)),
        ensures
            bytes_of(next.0) == reader.bytes(),
            self.may_begin(
                next.1,
                &context_of(head, &body_json(reader.bytes())),
                reader.bytes(),
            ),
    {
        let json = parse_body(buffer_slice(&reader.body));
        let ctx = CacheContext {
            method: head.method,
            path: head.path,
            query_string: head.query_string,
            headers: head.headers,
            body: &json,
        };
        assert(context_of(head, &json) == ctx);
        let should_cache = self.cache_if.decide(&ctx);
        let base_key = self.base_key(&ctx, buffer_slice(&reader.body));
        let turn = self.begin_lookup(should_cache, base_key.as_str());
        proof {
            let seen = context_of(head, &body_json(reader.bytes()));
            assert(self.cache_if.may_answer(&seen, should_cache));
            assert(self.may_key(&seen, reader.bytes(), base_key@));
            assert(begins(turn, self, should_cache, base_key@));
            assert(self.may_begin(turn, &seen, reader.bytes()));
        }
        (reader.body.freeze(), turn)
    }
}

impl AwaitConnection {
    /// Goes on once the store is connected.
    pub fn connected(self, conn: MultiplexedConnection) -> (turn: Turn)
        ensures
            turn == Turn::Fetch(AwaitEntry { conn, pending: self.pending }),
    {
        Turn::Fetch(AwaitEntry { conn, pending: self.pending })
    }
}

/// `turn` is the next one once an entry has been looked for: without one the inner service
/// is called, one that is an array of fields is served, any other one is read by names.
pub open spec fn follows_fetch(turn: Turn, wait: AwaitEntry, entry: Option<Seq<u8>>) -> bool {
    let pending = with_conn(wait.pending, wait.conn);
    match entry {
        None => turn == Turn::Forward(pending),
        Some(data) => match unpacked(data) {
            Some(parts) => turn matches Turn::Serve(reply) && answers(reply, parts),
            None => turn matches Turn::Decode(next) && next.pending == pending && next.data@
                == data,
        },
    }
}

impl AwaitEntry {
    /// Goes on with the entry under the key: nothing where there is none or the store
    /// reported an error.
    pub fn fetched(self, entry: Option<Vec<u8>>) -> (turn: Turn)
        ensures
            follows_fetch(
                turn,
                self,
                match entry {
                    Some(data) => Some(data@),
                    None => None,
                },
            ),
    {
        let mut pending = self.pending;
        pending.redis_conn = Some(self.conn);
        match entry {
            None => Turn::Forward(pending),
            Some(data) => match CachedResponse::from_entry(data.as_slice()) {
                Some(stored) => Turn::Serve(stored.into_reply()),
                None => Turn::Decode(AwaitDecoded { data, pending }),
            },
        }
    }
}

impl AwaitDecoded {
    /// Goes on with what was read out of the entry: an entry that cannot be read counts as
    /// none.
    pub fn decoded(self, stored: Option<CachedResponse>) -> (turn: Turn)
        ensures
            match stored {
                Some(response) => turn matches Turn::Serve(reply) && answers(
                    reply,
                    parts_of(response),
                ),
                None => turn == Turn::Forward(self.pending),
            },
    {
        match stored {
            Some(response) => Turn::Serve(response.into_reply()),
            None => Turn::Forward(self.pending),
        }
    }
}

} // verus!
