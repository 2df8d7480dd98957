//! Configuration: the builder, the middleware it builds, and the service that wraps an
//! inner one with it.

use std::rc::Rc;
use std::sync::Arc;

use redis::aio::MultiplexedConnection;
use vstd::prelude::*;

use crate::context::{CacheContext, CacheEverything, CacheKeyRule, CachePredicate};
use crate::foreign::share::share;

verus! {

/// Redis-backed caching middleware.
///
/// It serves cached responses for matching requests where there are some, and records the
/// responses of the others.
pub struct RedisCacheMiddleware {
    /// A connection to share among requests
    pub redis_conn: Option<MultiplexedConnection>,
    /// The Redis connection URL
    pub redis_url: String,
    /// Seconds that a response remains in the cache
    pub ttl: u64,
    /// The size in bytes of the largest body that is cached
    pub max_cacheable_size: usize,
    /// What every cache key starts with
    pub cache_prefix: String,
    /// Says which requests are cached
    pub cache_if: Arc<Box<dyn CachePredicate>>,
    /// Gives requests their base keys, in place of the standard ones
    pub cache_key_fn: Option<Arc<Box<dyn CacheKeyRule>>>,
}

/// Builder for a `RedisCacheMiddleware`.
///
/// Time to live, size limit, key prefix and rules are set by one method each.
pub struct RedisCacheMiddlewareBuilder {
    /// The Redis connection URL
    pub redis_url: String,
    /// Seconds that a response remains in the cache
    pub ttl: u64,
    /// The size in bytes of the largest body that is cached
    pub max_cacheable_size: usize,
    /// What every cache key starts with
    pub cache_prefix: String,
    /// Says which requests are cached
    pub cache_if: Arc<Box<dyn CachePredicate>>,
    /// Gives requests their base keys, in place of the standard ones
    pub cache_key_fn: Option<Arc<Box<dyn CacheKeyRule>>>,
}

/// An inner service with the cache in front of it.
pub struct RedisCacheMiddlewareService<S> {
    /// The inner service
    pub service: Rc<S>,
    /// A connection to share among requests
    pub redis_conn: Option<MultiplexedConnection>,
    /// The Redis connection URL
    pub redis_url: String,
    /// Seconds that a response remains in the cache
    pub ttl: u64,
    /// The size in bytes of the largest body that is cached
    pub max_cacheable_size: usize,
    /// What every cache key starts with
    pub cache_prefix: String,
    /// Says which requests are cached
    pub cache_if: Arc<Box<dyn CachePredicate>>,
    /// Gives requests their base keys, in place of the standard ones
    pub cache_key_fn: Option<Arc<Box<dyn CacheKeyRule>>>,
}

impl RedisCacheMiddlewareBuilder {
    /// A builder for the given Redis URL with default settings: responses stay for an
    /// hour, up to 1 MiB are cached, keys start with `cache:`, every request is cached,
    /// and keys are the standard ones.
    pub fn new<U: Into<String>>(redis_url: U) -> (builder: Self)
        ensures
            call_ensures(<U as Into<String>>::into, (redis_url,), builder.redis_url),
            builder.ttl == 3600,
            builder.max_cacheable_size == 1024 * 1024,
            builder.cache_prefix@ == "cache:"@,
            forall|ctx: &CacheContext| #[trigger] builder.cache_if.accepts(ctx),
            forall|ctx: &CacheContext, answer: bool| #[trigger]
                builder.cache_if.may_answer(ctx, answer) <==> answer,
            builder.cache_key_fn is None,
    {
        RedisCacheMiddlewareBuilder {
            redis_url: redis_url.into(),
            ttl: 3600,
            max_cacheable_size: 1024 * 1024,
            cache_prefix: String::from("cache:"),
            cache_if: Arc::new(Box::new(CacheEverything)),
            cache_key_fn: None,
        }
    }

    /// Sets the time to live of cached responses, in seconds.
    pub fn ttl(self, seconds: u64) -> (builder: Self)
        ensures
            builder == (RedisCacheMiddlewareBuilder { ttl: seconds, ..self }),
    {
        let mut builder = self;
        builder.ttl = seconds;
        builder
    }

    /// Sets the size in bytes of the largest response body that is cached.
    pub fn max_cacheable_size(self, bytes: usize) -> (builder: Self)
        ensures
            builder == (RedisCacheMiddlewareBuilder { max_cacheable_size: bytes, ..self }),
    {
        let mut builder = self;
        builder.max_cacheable_size = bytes;
        builder
    }

    /// Sets the text that every cache key starts with.
    pub fn cache_prefix<P: Into<String>>(self, prefix: P) -> (builder: Self)
        ensures
            call_ensures(<P as Into<String>>::into, (prefix,), builder.cache_prefix),
            builder == (RedisCacheMiddlewareBuilder { cache_prefix: builder.cache_prefix, ..self }),
    {
        let mut builder = self;
        builder.cache_prefix = prefix.into();
        builder
    }

    /// Sets the rule that says of a request whether its response is to be cached.
    pub fn cache_if<F>(self, predicate: F) -> (builder: Self) where
        F: Fn(&CacheContext) -> bool + Send + Sync + 'static,

        ensures
            builder == (RedisCacheMiddlewareBuilder { cache_if: builder.cache_if, ..self }),
            forall|ctx: &CacheContext| #[trigger]
                builder.cache_if.accepts(ctx) <==> call_requires(predicate, (ctx,)),
            forall|ctx: &CacheContext, answer: bool| #[trigger]
                builder.cache_if.may_answer(ctx, answer) <==> call_ensures(
                    predicate,
                    (ctx,),
                    answer,
                ),
    {
        let mut builder = self;
        builder.cache_if = Arc::new(Box::new(predicate));
        builder
    }

    /// Sets the rule that gives requests their base keys. Without one, a base key is made
    /// of method, path, query string and, where there is a body, the hash of the body.
    pub fn with_cache_key<F>(self, key_fn: F) -> (builder: Self) where
        F: Fn(&CacheContext) -> String + Send + Sync + 'static,

        ensures
            builder == (RedisCacheMiddlewareBuilder { cache_key_fn: builder.cache_key_fn, ..self }),
            builder.cache_key_fn is Some,
            forall|ctx: &CacheContext| #[trigger]
                builder.cache_key_fn->Some_0.accepts(ctx) <==> call_requires(key_fn, (ctx,)),
            forall|ctx: &CacheContext, key: String| #[trigger]
                builder.cache_key_fn->Some_0.may_answer(ctx, key) <==> call_ensures(
                    key_fn,
                    (ctx,),
                    key,
                ),
    {
        let mut builder = self;
        builder.cache_key_fn = Some(Arc::new(Box::new(key_fn)));
        builder
    }

    /// The middleware with the settings of this builder, not yet connected.
    pub fn build(self) -> (middleware: RedisCacheMiddleware)
        ensures
            middleware == (RedisCacheMiddleware {
                redis_conn: None,
                redis_url: self.redis_url,
                ttl: self.ttl,
                max_cacheable_size: self.max_cacheable_size,
                cache_prefix: self.cache_prefix,
                cache_if: self.cache_if,
                cache_key_fn: self.cache_key_fn,
            }),
    {
        RedisCacheMiddleware {
            redis_conn: None,
            redis_url: self.redis_url,
            ttl: self.ttl,
            max_cacheable_size: self.max_cacheable_size,
            cache_prefix: self.cache_prefix,
            cache_if: self.cache_if,
            cache_key_fn: self.cache_key_fn,
        }
    }
}

impl RedisCacheMiddleware {
    /// A middleware for the given Redis URL with default settings.
    pub fn new(redis_url: &str) -> (middleware: Self)
        ensures
            middleware.redis_conn is None,
            middleware.redis_url@ == redis_url@,
            middleware.ttl == 3600,
            middleware.max_cacheable_size == 1024 * 1024,
            middleware.cache_prefix@ == "cache:"@,
            forall|ctx: &CacheContext| #[trigger] middleware.cache_if.accepts(ctx),
            forall|ctx: &CacheContext, answer: bool| #[trigger]
                middleware.cache_if.may_answer(ctx, answer) <==> answer,
            middleware.cache_key_fn is None,
    {
        RedisCacheMiddlewareBuilder::new(redis_url).build()
    }

    /// Puts the cache in front of an inner service.
    pub fn new_transform<S>(&self, service: S) -> (wrapped: RedisCacheMiddlewareService<S>)
        ensures
            wrapped.redis_conn is Some <==> self.redis_conn is Some,
            wrapped == (RedisCacheMiddlewareService {
                service: Rc::new(service),
                redis_conn: wrapped.redis_conn,
                redis_url: self.redis_url,
                ttl: self.ttl,
                max_cacheable_size: self.max_cacheable_size,
                cache_prefix: self.cache_prefix,
                cache_if: self.cache_if,
                cache_key_fn: self.cache_key_fn,
            }),
    {
        RedisCacheMiddlewareService {
            service: Rc::new(service),
            redis_conn: self.redis_conn.clone(),
            redis_url: self.redis_url.clone(),
            ttl: self.ttl,
            max_cacheable_size: self.max_cacheable_size,
            cache_prefix: self.cache_prefix.clone(),
            cache_if: share(&self.cache_if),
            cache_key_fn: match &self.cache_key_fn {
                Some(rule) => Some(share(rule)),
                None => None,
            },
        }
    }
}

impl Clone for RedisCacheMiddleware {
    /// The same settings, with another handle on the connection where there is one.
    fn clone(&self) -> (copy: Self)
        ensures
            copy.redis_conn is Some <==> self.redis_conn is Some,
            copy == (RedisCacheMiddleware { redis_conn: copy.redis_conn, ..*self }),
    {
        RedisCacheMiddleware {
            redis_conn: self.redis_conn.clone(),
            redis_url: self.redis_url.clone(),
            ttl: self.ttl,
            max_cacheable_size: self.max_cacheable_size,
            cache_prefix: self.cache_prefix.clone(),
            cache_if: share(&self.cache_if),
            cache_key_fn: match &self.cache_key_fn {
                Some(rule) => Some(share(rule)),
                None => None,
            },
        }
    }
}

} // verus!
