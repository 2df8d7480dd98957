//! Recording a response, writing it, and serving it again.

use actix_request_reply_cache::cache_control::{
    denies_caching, some_denies_caching, stays_out_of_cache,
};
use actix_request_reply_cache::record::{
    keep_headers, names_transfer_header, stored_headers, CacheableBody, PendingResponse, WriteTurn,
};
use actix_request_reply_cache::reply::{CachedResponse, Reply};
use actix_web::http::header::{HeaderMap, HeaderName, HeaderValue};
use actix_web::web::{Bytes, BytesMut};

fn headers_of(pairs: &[(&'static str, &[u8])]) -> HeaderMap {
    let mut headers = HeaderMap::new();
    for (name, value) in pairs {
        headers.append(
            HeaderName::from_static(name),
            HeaderValue::from_bytes(value).unwrap(),
        );
    }
    headers
}

fn owned(pairs: &[(&str, &str)]) -> Vec<(String, String)> {
    pairs.iter().map(|(n, v)| (n.to_string(), v.to_string())).collect()
}

fn pending(should_cache: bool) -> PendingResponse {
    PendingResponse {
        should_cache,
        cache_key: "cache:k".to_string(),
        redis_conn: None,
        redis_url: "redis://localhost".to_string(),
        ttl: 60,
        max_cacheable_size: 8,
    }
}

fn record(status: u16, headers: Vec<(String, String)>, body: &[u8], max_size: usize) -> CacheableBody {
    CacheableBody {
        status,
        headers,
        body_accum: BytesMut::from(body),
        announced: None,
        ended: true,
        failed: false,
        cache_key: "cache:k".to_string(),
        redis_conn: None,
        redis_url: "redis://localhost".to_string(),
        ttl: 60,
        max_size,
    }
}

fn data_of(turn: WriteTurn) -> Vec<u8> {
    match turn {
        WriteTurn::Connect(write) => write.data,
        _ => panic!("the record is written after connecting"),
    }
}

#[test]
fn test_cached_response_serialization() {
    let cached_response = record(
        200,
        vec![
            ("Content-Type".to_string(), "text/plain".to_string()),
            ("X-Test".to_string(), "value".to_string()),
        ],
        b"test response",
        1024,
    );

    // Serialize
    let serialized = data_of(cached_response.finish());

    // Deserialize
    let deserialized: CachedResponse = CachedResponse::from_entry(&serialized).unwrap();

    // Verify fields match
    assert_eq!(deserialized.status, 200);
    assert_eq!(deserialized.headers.len(), 2);
    assert_eq!(deserialized.headers[0].0, "Content-Type");
    assert_eq!(deserialized.headers[0].1, "text/plain");
    assert_eq!(deserialized.headers[1].0, "X-Test");
    assert_eq!(deserialized.headers[1].1, "value");
    assert_eq!(deserialized.body, b"test response");
}

#[test]
fn entry_is_an_array_of_three_fields() {
    let data = data_of(record(200, owned(&[("a", "b")]), &[1, 255], 10).finish());
    assert_eq!(
        data,
        vec![0x93, 0xcc, 200, 0x91, 0x92, 0xa1, b'a', 0xa1, b'b', 0x92, 1, 0xcc, 0xff]
    );
}

#[test]
fn entry_that_is_no_array_of_fields_is_not_read() {
    assert!(CachedResponse::from_entry(b"").is_none());
    assert!(CachedResponse::from_entry(b"garbage").is_none());
    // Two fields, and four
    assert!(CachedResponse::from_entry(&[0x92, 0xcc, 200, 0x90]).is_none());
    assert!(CachedResponse::from_entry(&[0x94, 0xcc, 200, 0x90, 0x90, 0x90]).is_none());
    // A map from names to fields
    assert!(CachedResponse::from_entry(&[0x81, 0xa1, b'a', 1]).is_none());
    // A status that does not fit
    assert!(CachedResponse::from_entry(&[0x93, 0xce, 0, 1, 0, 0, 0x90, 0x90]).is_none());
}

#[test]
fn successes_are_recorded() {
    let headers = headers_of(&[("content-type", b"text/plain")]);
    for status in [200u16, 204, 299] {
        let body = pending(true).poll(status, &headers, None).unwrap();
        assert_eq!(body.status, status);
        assert_eq!(body.headers, owned(&[("content-type", "text/plain")]));
        assert!(body.body_accum.is_empty());
        assert!(!body.ended);
        assert!(!body.failed);
        assert_eq!(body.cache_key, "cache:k");
        assert_eq!(body.redis_url, "redis://localhost");
        assert_eq!(body.ttl, 60);
        assert_eq!(body.max_size, 8);
    }
}

#[test]
fn other_responses_are_not_recorded() {
    let headers = HeaderMap::new();
    for status in [0u16, 100, 199, 300, 304, 404, 500, 999, 1000, 65535] {
        assert!(pending(true).poll(status, &headers, None).is_none());
    }
    assert!(pending(false).poll(200, &headers, None).is_none());
}

#[test]
fn transfer_headers_are_not_stored() {
    let headers = headers_of(&[
        ("connection", b"close"),
        ("transfer-encoding", b"chunked"),
        ("content-length", b"3"),
        ("etag", b"x"),
    ]);
    assert_eq!(stored_headers(&headers), owned(&[("etag", "x")]));
    assert!(names_transfer_header("Connection"));
    assert!(names_transfer_header("TRANSFER-ENCODING"));
    assert!(names_transfer_header("content-length"));
    assert!(!names_transfer_header("content-type"));
    assert!(!names_transfer_header("connections"));
    assert!(!names_transfer_header(""));
}

#[test]
fn values_of_one_name_are_stored_in_order() {
    let headers = headers_of(&[("set-cookie", b"a=1"), ("set-cookie", b"b=2")]);
    assert_eq!(
        stored_headers(&headers),
        owned(&[("set-cookie", "a=1"), ("set-cookie", "b=2")])
    );
}

#[test]
fn value_that_is_no_plain_text_is_stored_empty() {
    let raw = vec![
        ("a".to_string(), b"plain\ttext".to_vec()),
        ("Connection".to_string(), b"close".to_vec()),
        ("b".to_string(), b"caf\xc3\xa9".to_vec()),
        ("c".to_string(), b"".to_vec()),
    ];
    assert_eq!(
        keep_headers(&raw),
        owned(&[("a", "plain\ttext"), ("b", ""), ("c", "")])
    );
}

#[test]
fn chunks_are_recorded_and_passed_on() {
    let mut body = pending(true).poll(200, &HeaderMap::new(), None).unwrap();
    let item = body.poll_next::<u8>(Some(Ok(Bytes::from_static(b"ab"))));
    assert_eq!(item, Some(Ok(Bytes::from_static(b"ab"))));
    body.poll_next::<u8>(Some(Ok(Bytes::new())));
    body.poll_next::<u8>(Some(Ok(Bytes::from_static(b"c"))));
    assert!(!body.ended);
    assert_eq!(body.poll_next::<u8>(None), None);
    assert!(body.ended);
    assert!(!body.failed);
    assert_eq!(&body.body_accum[..], b"abc");
    assert_eq!(body.status, 200);
    assert!(body.is_cacheable());
}

#[test]
fn body_that_is_dropped_early_is_not_written() {
    let small = PendingResponse { max_cacheable_size: 4, ..pending(true) };
    let mut body = small.poll(200, &HeaderMap::new(), None).unwrap();
    body.poll_next::<u8>(Some(Ok(Bytes::from_static(b"abcd"))));
    // "efgh" would follow
    assert!(!body.is_cacheable());
    assert!(matches!(body.finish(), WriteTurn::Skip));
}

#[test]
fn body_of_exactly_the_limit_is_written_once_it_ends() {
    let small = PendingResponse { max_cacheable_size: 4, ..pending(true) };
    let mut body = small.poll(200, &HeaderMap::new(), None).unwrap();
    body.poll_next::<u8>(Some(Ok(Bytes::from_static(b"abcd"))));
    body.poll_next::<u8>(None);
    assert!(body.is_cacheable());
    assert!(matches!(body.finish(), WriteTurn::Connect(_)));
}

#[test]
fn body_that_reached_its_announced_size_is_whole() {
    let mut body = pending(true).poll(200, &HeaderMap::new(), Some(5)).unwrap();
    assert_eq!(body.announced, Some(5));
    body.poll_next::<u8>(Some(Ok(Bytes::from_static(b"he"))));
    assert!(!body.is_cacheable());
    body.poll_next::<u8>(Some(Ok(Bytes::from_static(b"llo"))));
    // Dropped before the poll that reports the end
    assert!(!body.ended);
    assert!(body.is_cacheable());
    assert!(matches!(body.finish(), WriteTurn::Connect(_)));
}

#[test]
fn announced_size_does_not_make_up_for_the_limit_or_an_error() {
    let mut large = pending(true).poll(200, &HeaderMap::new(), Some(9)).unwrap();
    large.poll_next::<u8>(Some(Ok(Bytes::from_static(b"123456789"))));
    assert!(matches!(large.finish(), WriteTurn::Skip));

    let mut failed = pending(true).poll(200, &HeaderMap::new(), Some(2)).unwrap();
    failed.poll_next::<u8>(Some(Err(1)));
    failed.poll_next::<u8>(Some(Ok(Bytes::from_static(b"ab"))));
    assert!(matches!(failed.finish(), WriteTurn::Skip));

    // A body that ends short of its announced size is taken as it is
    let mut short = pending(true).poll(200, &HeaderMap::new(), Some(7)).unwrap();
    short.poll_next::<u8>(Some(Ok(Bytes::from_static(b"ab"))));
    short.poll_next::<u8>(None);
    assert!(matches!(short.finish(), WriteTurn::Connect(_)));
}

#[test]
fn body_that_failed_is_not_written() {
    let mut body = pending(true).poll(200, &HeaderMap::new(), None).unwrap();
    body.poll_next::<u8>(Some(Ok(Bytes::from_static(b"ab"))));
    assert_eq!(body.poll_next::<u8>(Some(Err(3))), Some(Err(3)));
    assert!(body.failed);
    assert_eq!(&body.body_accum[..], b"ab");
    // Not even if it goes on to an end
    body.poll_next::<u8>(Some(Ok(Bytes::from_static(b"c"))));
    body.poll_next::<u8>(None);
    assert!(!body.is_cacheable());
    assert!(matches!(body.finish(), WriteTurn::Skip));
}

#[test]
fn response_can_forbid_that_it_is_stored() {
    let forbidding: [&[(&'static str, &[u8])]; 4] = [
        &[("cache-control", b"no-store")],
        &[("cache-control", b"no-cache")],
        &[("cache-control", b"max-age=0, no-store")],
        // Every value counts
        &[("cache-control", b"public"), ("etag", b"x"), ("cache-control", b"no-store")],
    ];
    for headers in forbidding {
        assert!(stays_out_of_cache(&headers_of(headers)));
        assert!(pending(true).poll(200, &headers_of(headers), None).is_none());
    }

    let allowing: [&[(&'static str, &[u8])]; 4] = [
        &[],
        &[("cache-control", b"public, max-age=60")],
        &[("pragma", b"no-store")],
        &[("cache-control", b"no-store \xff")],
    ];
    for headers in allowing {
        assert!(!stays_out_of_cache(&headers_of(headers)));
        assert!(pending(true).poll(200, &headers_of(headers), None).is_some());
    }
}

#[test]
fn verdicts_on_listed_values() {
    let list = |pairs: &[(&str, &[u8])]| -> Vec<(String, Vec<u8>)> {
        pairs.iter().map(|(n, v)| (n.to_string(), v.to_vec())).collect()
    };
    assert!(!some_denies_caching(&list(&[])));
    assert!(!some_denies_caching(&list(&[("etag", b"no-store"), ("cache-control", b"x")])));
    assert!(some_denies_caching(&list(&[("cache-control", b"x"), ("cache-control", b"no-cache")])));
    assert!(denies_caching(b"no-store"));
    assert!(!denies_caching(b"no-sto"));
}

#[test]
fn empty_body_is_not_written() {
    let body = record(200, vec![], b"", 8);
    assert!(!body.is_cacheable());
    assert!(matches!(body.finish(), WriteTurn::Skip));
}

#[test]
fn size_limit_is_inclusive() {
    assert!(record(200, vec![], b"12345678", 8).is_cacheable());
    assert!(matches!(record(200, vec![], b"12345678", 8).finish(), WriteTurn::Connect(_)));
    assert!(!record(200, vec![], b"123456789", 8).is_cacheable());
    assert!(matches!(record(200, vec![], b"123456789", 8).finish(), WriteTurn::Skip));
    assert!(matches!(record(200, vec![], b"1", 0).finish(), WriteTurn::Skip));
}

#[test]
fn write_carries_key_and_time_to_live() {
    match record(200, vec![], b"1", 8).finish() {
        WriteTurn::Connect(write) => {
            assert_eq!(write.redis_url, "redis://localhost");
            assert_eq!(write.cache_key, "cache:k");
            assert_eq!(write.ttl, 60);
        }
        _ => panic!("the record is written after connecting"),
    }
}

#[test]
fn write_starts_only_with_data() {
    assert!(matches!(record(200, vec![], b"1", 8).begin_write(None), WriteTurn::Unserialized));
    assert_eq!(data_of(record(200, vec![], b"1", 8).begin_write(Some(vec![7, 8]))), vec![7, 8]);
    let partial = CacheableBody { ended: false, ..record(200, vec![], b"1", 8) };
    assert!(matches!(partial.begin_write(Some(vec![7, 8])), WriteTurn::Skip));
}

#[test]
fn reply_carries_the_stored_response() {
    let stored = CachedResponse {
        status: 203,
        headers: owned(&[("Content-Type", "text/plain"), ("etag", "\u{e9}")]),
        body: b"hi".to_vec(),
    };
    match stored.into_reply() {
        Reply::Response { status, headers, body } => {
            assert_eq!(status, 203);
            assert_eq!(headers.get("content-type").unwrap(), "text/plain");
            assert_eq!(headers.get("etag").unwrap().as_bytes(), "\u{e9}".as_bytes());
            assert_eq!(headers.get("x-cache").unwrap(), "HIT");
            assert_eq!(headers.len(), 3);
            assert_eq!(body, b"hi");
        }
        Reply::Rejected { .. } => panic!("the headers are valid"),
    }
}

#[test]
fn status_that_is_none_becomes_ok() {
    for (stored, sent) in [(0u16, 200u16), (99, 200), (100, 100), (999, 999), (1000, 200)] {
        let response = CachedResponse { status: stored, headers: vec![], body: vec![] };
        match response.into_reply() {
            Reply::Response { status, .. } => assert_eq!(status, sent),
            Reply::Rejected { .. } => panic!("there are no headers"),
        }
    }
}

#[test]
fn last_value_is_replayed() {
    let stored = CachedResponse {
        status: 200,
        headers: owned(&[("A", "1"), ("b", "2"), ("a", "3"), ("X-Cache", "MISS")]),
        body: vec![],
    };
    match stored.into_reply() {
        Reply::Response { headers, .. } => {
            assert_eq!(headers.get_all("a").count(), 1);
            assert_eq!(headers.get("a").unwrap(), "3");
            assert_eq!(headers.get("b").unwrap(), "2");
            assert_eq!(headers.get("x-cache").unwrap(), "HIT");
            assert_eq!(headers.len(), 3);
        }
        Reply::Rejected { .. } => panic!("the headers are valid"),
    }
}

#[test]
fn header_that_no_response_can_carry_is_rejected() {
    let cases = [("", "v"), ("a b", "v"), ("a:", "v"), ("\u{e9}", "v"), ("a", "x\ny"), ("a", "\u{7f}")];
    for (bad_name, bad_value) in cases {
        let stored = CachedResponse {
            status: 200,
            headers: owned(&[("ok", "1"), (bad_name, bad_value), ("", "later")]),
            body: vec![],
        };
        match stored.into_reply() {
            Reply::Rejected { name, value } => {
                assert_eq!(name, bad_name);
                assert_eq!(value, bad_value);
            }
            Reply::Response { .. } => panic!("{:?} is no header", (bad_name, bad_value)),
        }
    }
}

#[test]
fn long_header_names_have_a_limit() {
    for (len, accepted) in [(65535usize, true), (65536, false)] {
        let stored = CachedResponse {
            status: 200,
            headers: vec![("a".repeat(len), "v".to_string())],
            body: vec![],
        };
        assert_eq!(matches!(stored.into_reply(), Reply::Response { .. }), accepted);
    }
}

#[test]
fn every_ascii_character_is_judged_as_in_a_header() {
    for code in 0u8..128 {
        let c = code as char;
        let name_ok = c.is_ascii_alphanumeric() || "!\"#$%&'*+-.^_`|~".contains(c);
        let name = CachedResponse {
            status: 200,
            headers: vec![(c.to_string(), String::new())],
            body: vec![],
        };
        assert_eq!(matches!(name.into_reply(), Reply::Response { .. }), name_ok, "{:?}", c);

        let value_ok = c == '\t' || (' '..='~').contains(&c);
        let value = CachedResponse {
            status: 200,
            headers: vec![("a".to_string(), c.to_string())],
            body: vec![],
        };
        assert_eq!(matches!(value.into_reply(), Reply::Response { .. }), value_ok, "{:?}", c);
    }
}

#[test]
fn what_is_written_is_served() {
    let headers = headers_of(&[
        ("content-type", b"text/plain"),
        ("set-cookie", b"a=1"),
        ("set-cookie", b"b=2"),
        ("content-length", b"5"),
        ("x-cache", b"MISS"),
        ("x-bin", b"\xff"),
    ]);
    let mut body = pending(true).poll(201, &headers, None).unwrap();
    body.poll_next::<u8>(Some(Ok(Bytes::from_static(b"he"))));
    body.poll_next::<u8>(Some(Ok(Bytes::from_static(b"llo"))));
    body.poll_next::<u8>(None);
    let data = data_of(body.finish());
    match CachedResponse::from_entry(&data).unwrap().into_reply() {
        Reply::Response { status, headers, body } => {
            assert_eq!(status, 201);
            assert_eq!(body, b"hello");
            assert_eq!(headers.get("content-type").unwrap(), "text/plain");
            assert_eq!(headers.get_all("set-cookie").count(), 1);
            assert_eq!(headers.get("set-cookie").unwrap(), "b=2");
            assert_eq!(headers.get("x-bin").unwrap(), "");
            assert_eq!(headers.get("x-cache").unwrap(), "HIT");
            assert!(headers.get("content-length").is_none());
            assert_eq!(headers.len(), 4);
        }
        Reply::Rejected { .. } => panic!("a recorded response is never rejected"),
    }
}
