//! Request-reply caching for HTTP services, backed by Redis.
//!
//! The crate holds the decisions of a caching middleware: which requests skip the
//! cache, under which key a request is looked up, what is served on a hit, which
//! responses are recorded, and what is written to the store when a recorded body
//! ends. Network traffic is left to the caller, who performs the actions that the
//! functions here hand out and reports what came back.
//!
//! A service built with [`RedisCacheMiddlewareBuilder`] takes a request through
//! [`lookup`], its response through [`record`]. [`laws`] states what holds of the two
//! together, [`behaviour`] how what the functions return depends on what they are given.
//! [`foreign`] holds what is taken from other crates.

pub mod behaviour;
pub mod cache_control;
pub mod context;
pub mod foreign;
pub mod keys;
pub mod laws;
pub mod lookup;
pub mod middleware;
pub mod payload;
pub mod record;
pub mod reply;

pub use context::CacheContext;
pub use middleware::{
    RedisCacheMiddleware, RedisCacheMiddlewareBuilder, RedisCacheMiddlewareService,
};
