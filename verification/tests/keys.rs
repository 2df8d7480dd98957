//! Base keys and store keys.

use actix_request_reply_cache::keys::{
    default_base_key, join_base_key, join_store_key, store_key_of,
};
use actix_request_reply_cache::context::{parse_body, value_or_null, CacheKeyRule};
use actix_request_reply_cache::{CacheContext, RedisCacheMiddlewareBuilder};
use actix_web::http::header;
use actix_web::test::TestRequest;
use serde_json::Value;
use sha2::{Digest, Sha256};

#[test]
fn test_cache_key_generation() {
    // Create a simple request
    let req = TestRequest::get().uri("/test").to_srv_request();

    // Extract the relevant parts for key generation
    let method = req.method().as_str();
    let path = req.path();
    let query_string = req.query_string();

    let base_key = default_base_key(method, path, query_string, b"");
    let cache_key = store_key_of("test:", &base_key);

    let expected_key = format!(
        "test:{}",
        hex::encode(Sha256::digest("GET:/test:".to_string().as_bytes()))
    );

    assert_eq!(cache_key, expected_key);
}

#[test]
fn test_cache_key_with_body() {
    let body_bytes = b"test body";
    let body_hash = hex::encode(Sha256::digest(body_bytes));

    let base_key = default_base_key("POST", "/test", "", body_bytes);
    let cache_key = store_key_of("test:", &base_key);

    // Expected key when body is present
    let expected_key = format!(
        "test:{}",
        hex::encode(Sha256::digest(
            format!("POST:/test::{}", body_hash).as_bytes()
        ))
    );

    assert_eq!(cache_key, expected_key);
}

#[test]
fn test_custom_cache_key() {
    // A builder with a custom cache key function that only uses method and path
    let builder = RedisCacheMiddlewareBuilder::new("redis://localhost")
        .with_cache_key(|ctx| format!("{}:{}", ctx.method, ctx.path));

    let get_key = |method: &str, path: &str, query: &str, body: &[u8]| {
        let headers = header::HeaderMap::new();
        let body_json = parse_body(body);
        let ctx = CacheContext {
            method,
            path,
            query_string: query,
            headers: &headers,
            body: &body_json,
        };

        let base_key = if let Some(key_fn) = &builder.cache_key_fn {
            key_fn.base_key(&ctx)
        } else {
            default_base_key(method, path, query, body)
        };

        store_key_of(&format!("{}:", builder.cache_prefix), &base_key)
    };

    // Different query strings should now produce the same cache key
    let key1 = get_key("GET", "/users", "", b"");
    let key2 = get_key("GET", "/users", "page=1", b"");
    let key3 = get_key("GET", "/users", "page=2", b"");

    assert_eq!(key1, key2);
    assert_eq!(key1, key3);

    // Different methods should produce different cache keys
    let key_get = get_key("GET", "/resource", "", b"");
    let key_post = get_key("POST", "/resource", "", b"");

    assert_ne!(key_get, key_post);
}

#[test]
fn base_key_without_body_has_three_parts() {
    assert_eq!(default_base_key("GET", "/a", "x=1", b""), "GET:/a:x=1");
    assert_eq!(default_base_key("", "", "", b""), "::");
}

#[test]
fn base_key_with_body_ends_in_its_hash() {
    assert_eq!(
        default_base_key("POST", "/test", "", b"test body"),
        "POST:/test::63efb315ed71cc7e5a1fc202434bb3aec2091e7838707e148a017faebb7464fe"
    );
}

#[test]
fn store_key_is_prefix_and_hash() {
    assert_eq!(
        store_key_of("test:", "GET:/test:"),
        "test:10ef1c2a1c8910681f715e9a9e3690093e126cbdfbb2c414c2f53560a704b2ca"
    );
    // The base key is hashed as UTF-8
    assert_eq!(
        store_key_of("", "GET:/\u{e4}:"),
        "2a1e99345afe97f8bb002ef9e872f9b6a2e0909b708f52f539bd98f52629d14d"
    );
    assert_eq!(
        store_key_of("cache:", ""),
        "cache:e3b0c44298fc1c149afbf4c8996fb92427ae41e4649b934ca495991b7852b855"
    );
}

#[test]
fn joins_are_exact_for_any_digest() {
    assert_eq!(
        join_base_key("PUT", "/p", "q", Some(&[0x00, 0x0f, 0xf0, 0xff])),
        "PUT:/p:q:000ff0ff"
    );
    assert_eq!(join_base_key("PUT", "/p", "q", Some(&[])), "PUT:/p:q:");
    assert_eq!(join_base_key("PUT", "/p", "q", None), "PUT:/p:q");
    assert_eq!(join_store_key("k:", &[0xab, 0x09]), "k:ab09");
}

#[test]
fn methods_have_keys_of_their_own() {
    assert_ne!(
        default_base_key("GET", "/a", "", b""),
        default_base_key("HEAD", "/a", "", b"")
    );
}

#[test]
fn bodies_tell_keys_apart() {
    let none = default_base_key("POST", "/a", "", b"");
    let one = default_base_key("POST", "/a", "", b"1");
    let two = default_base_key("POST", "/a", "", b"2");
    assert_ne!(none, one);
    assert_ne!(one, two);
    assert_eq!(one, default_base_key("POST", "/a", "", b"1"));
}

#[test]
fn paths_and_queries_tell_keys_apart() {
    assert_ne!(
        default_base_key("GET", "/a", "b", b""),
        default_base_key("GET", "/ab", "", b"")
    );
}

#[test]
fn a_colon_in_the_path_can_make_keys_meet() {
    assert_eq!(
        default_base_key("GET", "/a:b", "", b""),
        default_base_key("GET", "/a", "b:", b"")
    );
}

#[test]
fn prefixes_share_no_entry() {
    assert_ne!(store_key_of("a:", "GET:/x:"), store_key_of("b:", "GET:/x:"));
    assert_ne!(store_key_of("a", "GET:/x:"), store_key_of("ab", "GET:/x:"));
}

#[test]
fn body_is_read_as_json() {
    let value = parse_body(br#"{"role":"admin","n":[1,null]}"#);
    assert_eq!(value.get("role").and_then(|r| r.as_str()), Some("admin"));
    assert_eq!(value["n"][0], 1);
    assert_eq!(parse_body(b"\"x\""), Value::String("x".to_string()));
}

#[test]
fn body_that_is_no_json_is_null() {
    assert_eq!(parse_body(b""), Value::Null);
    assert_eq!(parse_body(b"test body"), Value::Null);
    assert_eq!(parse_body(b"{} trailing"), Value::Null);
    assert_eq!(parse_body(b"null"), Value::Null);
}

#[test]
fn missing_value_is_null() {
    assert_eq!(value_or_null(None), Value::Null);
    assert_eq!(value_or_null(Some(Value::Bool(true))), Value::Bool(true));
}
