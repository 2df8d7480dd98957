//! The course of a request: bypass, payload, first turn, and what follows the store.

use actix_request_reply_cache::cache_control::skips_cache;
use actix_request_reply_cache::lookup::{Admission, AwaitDecoded, RequestHead, Turn};
use actix_request_reply_cache::payload::PayloadReader;
use actix_request_reply_cache::record::PendingResponse;
use actix_request_reply_cache::reply::{CachedResponse, Reply};
use actix_request_reply_cache::{RedisCacheMiddlewareBuilder, RedisCacheMiddlewareService};
use actix_web::http::header::{HeaderMap, HeaderName, HeaderValue};
use actix_web::web::Bytes;
use serde_json::Value;

fn headers_of(pairs: &[(&'static str, &[u8])]) -> HeaderMap {
    let mut headers = HeaderMap::new();
    for (name, value) in pairs {
        headers.append(
            HeaderName::from_static(name),
            HeaderValue::from_bytes(value).unwrap(),
        );
    }
    headers
}

fn service() -> RedisCacheMiddlewareService<()> {
    RedisCacheMiddlewareBuilder::new("redis://localhost")
        .ttl(9)
        .max_cacheable_size(100)
        .cache_prefix("test:")
        .cache_if(|ctx| ctx.method == "GET" || ctx.body.get("cache").is_some())
        .build()
        .new_transform(())
}

fn pending() -> PendingResponse {
    PendingResponse {
        should_cache: true,
        cache_key: "k".to_string(),
        redis_conn: None,
        redis_url: "redis://localhost".to_string(),
        ttl: 9,
        max_cacheable_size: 100,
    }
}

#[test]
fn cache_control_can_forbid_caching() {
    assert!(skips_cache(&headers_of(&[("cache-control", b"no-cache")])));
    assert!(skips_cache(&headers_of(&[("cache-control", b"no-store")])));
    assert!(skips_cache(&headers_of(&[("cache-control", b"max-age=0, no-store, x")])));
    assert!(skips_cache(&headers_of(&[("cache-control", b"xno-cachex")])));
}

#[test]
fn other_requests_are_admitted() {
    assert!(!skips_cache(&HeaderMap::new()));
    assert!(!skips_cache(&headers_of(&[("cache-control", b"max-age=60")])));
    assert!(!skips_cache(&headers_of(&[("cache-control", b"")])));
    // The words are looked for in lower case
    assert!(!skips_cache(&headers_of(&[("cache-control", b"No-Cache")])));
    // Only the first value counts
    assert!(!skips_cache(&headers_of(&[
        ("cache-control", b"private"),
        ("cache-control", b"no-cache")
    ])));
    // A value that is no plain text is passed over
    assert!(!skips_cache(&headers_of(&[("cache-control", b"no-cache \xff")])));
    // Other headers do not matter
    assert!(!skips_cache(&headers_of(&[("pragma", b"no-cache")])));
}

#[test]
fn call_admits_or_passes_by() {
    let service = service();
    assert!(matches!(
        service.call(&headers_of(&[("cache-control", b"no-cache")])),
        Admission::Bypass
    ));
    match service.call(&HeaderMap::new()) {
        Admission::Read(reader) => assert!(reader.body.is_empty()),
        Admission::Bypass => panic!("the request is admitted"),
    }
}

#[test]
fn payload_is_the_chunks_without_the_errors() {
    let mut reader = PayloadReader::new();
    reader.take_item::<u8>(Ok(Bytes::from_static(b"ab")));
    reader.take_item::<u8>(Err(7));
    reader.take_item::<u8>(Ok(Bytes::new()));
    reader.take_item::<u8>(Ok(Bytes::from_static(b"c")));
    assert_eq!(&reader.body[..], b"abc");
}

#[test]
fn refused_request_is_passed_on() {
    let service = service();
    let headers = HeaderMap::new();
    let head = RequestHead {
        method: "POST",
        path: "/test",
        query_string: "",
        headers: &headers,
    };
    let mut reader = PayloadReader::new();
    reader.take_item::<u8>(Ok(Bytes::from_static(b"test body")));
    let (payload, turn) = service.payload_read(head, reader);
    assert_eq!(&payload[..], b"test body");
    match turn {
        Turn::Forward(pending) => {
            assert!(!pending.should_cache);
            assert_eq!(
                pending.cache_key,
                "test:e4409850c6a3da5caeb89406d0ac861f88de99e27e40e4c76c60c8936dc5929f"
            );
            assert!(pending.poll(200, &headers, None).is_none());
        }
        _ => panic!("a refused request goes to the inner service"),
    }
}

#[test]
fn accepted_request_is_looked_up() {
    let service = service();
    let headers = HeaderMap::new();
    let head = RequestHead {
        method: "GET",
        path: "/test",
        query_string: "",
        headers: &headers,
    };
    let (payload, turn) = service.payload_read(head, PayloadReader::new());
    assert!(payload.is_empty());
    match turn {
        Turn::Connect(wait) => {
            assert!(wait.pending.should_cache);
            assert_eq!(
                wait.pending.cache_key,
                "test:10ef1c2a1c8910681f715e9a9e3690093e126cbdfbb2c414c2f53560a704b2ca"
            );
            assert_eq!(wait.pending.cache_key.len(), "test:".len() + 64);
            assert_eq!(wait.pending.redis_url, "redis://localhost");
            assert_eq!(wait.pending.ttl, 9);
            assert_eq!(wait.pending.max_cacheable_size, 100);
        }
        _ => panic!("without a connection the store is connected first"),
    }
}

#[test]
fn predicate_sees_the_json_of_the_body() {
    let service = service();
    let headers = HeaderMap::new();
    let head = RequestHead {
        method: "POST",
        path: "/test",
        query_string: "",
        headers: &headers,
    };
    let mut reader = PayloadReader::new();
    reader.take_item::<u8>(Ok(Bytes::from_static(b"{\"cache\":")));
    reader.take_item::<u8>(Ok(Bytes::from_static(b"1}")));
    let (_, turn) = service.payload_read(head, reader);
    assert!(matches!(turn, Turn::Connect(_)));
}

#[test]
fn custom_rule_gives_the_base_key() {
    let service = RedisCacheMiddlewareBuilder::new("redis://localhost")
        .cache_prefix("")
        .with_cache_key(|ctx| format!("{}:{}", ctx.method, ctx.path))
        .build()
        .new_transform(());
    let headers = HeaderMap::new();
    let head = RequestHead {
        method: "GET",
        path: "/users",
        query_string: "page=1",
        headers: &headers,
    };
    let (_, turn) = service.payload_read(head, PayloadReader::new());
    match turn {
        Turn::Connect(wait) => assert_eq!(
            wait.pending.cache_key,
            "abc06cacdda54d9312110f19aa345145e932558b81a68682f104e7377014ee41"
        ),
        _ => panic!("every request is looked up by default"),
    }
}

#[test]
fn lookup_starts_as_the_rules_say() {
    let service = service();
    assert!(matches!(service.begin_lookup(false, "x"), Turn::Forward(_)));
    assert!(matches!(service.begin_lookup(true, "x"), Turn::Connect(_)));
}

#[test]
fn unreadable_entry_is_a_miss() {
    let wait = AwaitDecoded { data: vec![1], pending: pending() };
    match wait.decoded(None) {
        Turn::Forward(pending) => {
            assert_eq!(pending.cache_key, "k");
            assert!(pending.poll(200, &HeaderMap::new(), None).is_some());
        }
        _ => panic!("the inner service is called"),
    }
}

#[test]
fn entry_that_was_read_is_served() {
    let wait = AwaitDecoded { data: vec![1], pending: pending() };
    let stored = CachedResponse {
        status: 204,
        headers: vec![("a".to_string(), "b".to_string())],
        body: vec![1, 2],
    };
    match wait.decoded(Some(stored)) {
        Turn::Serve(Reply::Response { status, headers, body }) => {
            assert_eq!(status, 204);
            assert_eq!(headers.get("a").unwrap(), "b");
            assert_eq!(headers.get("x-cache").unwrap(), "HIT");
            assert_eq!(headers.len(), 2);
            assert_eq!(body, vec![1, 2]);
        }
        _ => panic!("a stored response is served"),
    }
}

#[test]
fn null_stands_for_a_body_that_is_no_json() {
    let service = RedisCacheMiddlewareBuilder::new("redis://localhost")
        .cache_if(|ctx| *ctx.body == Value::Null)
        .build()
        .new_transform(());
    let headers = HeaderMap::new();
    let head = RequestHead { method: "POST", path: "/", query_string: "", headers: &headers };
    let mut reader = PayloadReader::new();
    reader.take_item::<u8>(Ok(Bytes::from_static(b"{")));
    let (_, turn) = service.payload_read(head, reader);
    assert!(matches!(turn, Turn::Connect(_)));
}
