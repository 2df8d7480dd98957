//! What a predicate or a key function sees of a request.

use actix_web::http::header::HeaderMap;
use serde_json::Value;
use vstd::prelude::*;

use crate::foreign::json::{json_null, json_value, null_text, parse_json};

verus! {

/// Request information for caching decisions and for custom cache keys.
pub struct CacheContext<'a> {
    /// The HTTP method of the request (e.g., "GET", "POST")
    pub method: &'a str,
    /// The request path
    pub path: &'a str,
    /// The query string from the request URL
    pub query_string: &'a str,
    /// HTTP headers from the request
    pub headers: &'a HeaderMap,
    /// The request body as JSON; null where the body is no JSON text
    pub body: &'a Value,
}

/// A rule that says of a request whether its response is to be cached. Any closure from a
/// context to a `bool` is one.
pub trait CachePredicate: Send + Sync {
    /// The rule can be asked about `ctx`.
    spec fn accepts(&self, ctx: &CacheContext) -> bool;

    /// The rule may give `answer` about `ctx`.
    spec fn may_answer(&self, ctx: &CacheContext, answer: bool) -> bool;

    /// Asks the rule.
    fn decide(&self, ctx: &CacheContext) -> (answer: bool)
        requires
            self.accepts(ctx),
        ensures
            self.may_answer(ctx, answer),
    ;
}

impl<F: Fn(&CacheContext) -> bool + Send + Sync> CachePredicate for F {
    open spec fn accepts(&self, ctx: &CacheContext) -> bool {
        call_requires(*self, (ctx,))
    }

    open spec fn may_answer(&self, ctx: &CacheContext, answer: bool) -> bool {
        call_ensures(*self, (ctx,), answer)
    }

    fn decide(&self, ctx: &CacheContext) -> (answer: bool) {
        self(ctx)
    }
}

/// The rule that caches the response of every request.
pub struct CacheEverything;

impl CachePredicate for CacheEverything {
    open spec fn accepts(&self, ctx: &CacheContext) -> bool {
        true
    }

    open spec fn may_answer(&self, ctx: &CacheContext, answer: bool) -> bool {
        answer
    }

    fn decide(&self, _ctx: &CacheContext) -> (answer: bool) {
        true
    }
}

/// A rule that gives a request its base key. Any closure from a context to a `String` is
/// one.
pub trait CacheKeyRule: Send + Sync {
    /// The rule can be asked about `ctx`.
    spec fn accepts(&self, ctx: &CacheContext) -> bool;

    /// The rule may give the base key `key` for `ctx`.
    spec fn may_answer(&self, ctx: &CacheContext, key: String) -> bool;

    /// Asks the rule.
    fn base_key(&self, ctx: &CacheContext) -> (key: String)
        requires
            self.accepts(ctx),
        ensures
            self.may_answer(ctx, key),
    ;
}

impl<F: Fn(&CacheContext) -> String + Send + Sync> CacheKeyRule for F {
    open spec fn accepts(&self, ctx: &CacheContext) -> bool {
        call_requires(*self, (ctx,))
    }

    open spec fn may_answer(&self, ctx: &CacheContext, key: String) -> bool {
        call_ensures(*self, (ctx,), key)
    }

    fn base_key(&self, ctx: &CacheContext) -> (key: String) {
        self(ctx)
    }
}

/// What a parse that found `parsed` gives the context: the value, or null in its place.
pub open spec fn or_null(parsed: Option<Value>) -> Value {
    match parsed {
        Some(value) => value,
        None => json_value(null_text())->Some_0,
    }
}

/// The JSON value of a request body; null where the body is no JSON text.
pub open spec fn body_json(body: Seq<u8>) -> Value {
    or_null(json_value(body))
}

/// The parsed value, or null where there is none.
pub fn value_or_null(parsed: Option<Value>) -> (value: Value)
    ensures
        value == or_null(parsed),
        parsed is None ==> json_value(null_text()) == Some(value),
{
    match parsed {
        Some(value) => value,
        None => json_null(),
    }
}

/// Reads a request body as JSON; null where it is no JSON text.
pub fn parse_body(body: &[u8]) -> (value: Value)
    ensures
        value == body_json(body@),
        json_value(body@) is None ==> json_value(null_text()) == Some(value),
{
    value_or_null(parse_json(body))
}

} // verus!
