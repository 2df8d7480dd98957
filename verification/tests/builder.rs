//! Settings, and how they reach the middleware and the service.

use actix_request_reply_cache::context::{CacheKeyRule, CachePredicate};
use actix_request_reply_cache::{
    CacheContext, RedisCacheMiddleware, RedisCacheMiddlewareBuilder,
};
use actix_web::http::header;
use serde_json::Value;

#[test]
fn test_builder_default_values() {
    let builder = RedisCacheMiddlewareBuilder::new("redis://localhost");
    assert_eq!(builder.ttl, 3600);
    assert_eq!(builder.max_cacheable_size, 1024 * 1024);
    assert_eq!(builder.cache_prefix, "cache:");
    assert_eq!(builder.redis_url, "redis://localhost");
}

#[test]
fn test_builder_custom_values() {
    let builder = RedisCacheMiddlewareBuilder::new("redis://localhost")
        .ttl(60)
        .max_cacheable_size(512 * 1024)
        .cache_prefix("custom:");

    assert_eq!(builder.ttl, 60);
    assert_eq!(builder.max_cacheable_size, 512 * 1024);
    assert_eq!(builder.cache_prefix, "custom:");
}

#[test]
fn test_builder_custom_predicate() {
    let builder =
        RedisCacheMiddlewareBuilder::new("redis://localhost").cache_if(|ctx| ctx.method == "GET");

    let get_ctx = CacheContext {
        method: "GET",
        path: "/test",
        query_string: "",
        headers: &header::HeaderMap::new(),
        body: &Value::Null,
    };

    let post_ctx = CacheContext {
        method: "POST",
        path: "/test",
        query_string: "",
        headers: &header::HeaderMap::new(),
        body: &Value::Null,
    };

    // The predicate should now only allow GET requests
    assert!(builder.cache_if.decide(&get_ctx));
    assert!(!builder.cache_if.decide(&post_ctx));
}

#[test]
fn test_cacheable_methods() {
    let builder = RedisCacheMiddlewareBuilder::new("redis://localhost");
    let default_predicate = builder.cache_if;

    let methods = ["GET", "POST", "PUT", "DELETE", "PATCH", "HEAD", "OPTIONS"];

    for method in methods {
        let ctx = CacheContext {
            method,
            path: "/test",
            query_string: "",
            headers: &header::HeaderMap::new(),
            body: &Value::Null,
        };

        // Default predicate should cache all methods
        assert!(
            default_predicate.decide(&ctx),
            "Method {} should be cacheable by default",
            method
        );
    }

    // A custom predicate that only caches GET and HEAD
    let custom_builder = RedisCacheMiddlewareBuilder::new("redis://localhost")
        .cache_if(|ctx| matches!(ctx.method, "GET" | "HEAD"));

    for method in methods {
        let ctx = CacheContext {
            method,
            path: "/test",
            query_string: "",
            headers: &header::HeaderMap::new(),
            body: &Value::Null,
        };

        let should_cache = matches!(method, "GET" | "HEAD");
        assert_eq!(
            custom_builder.cache_if.decide(&ctx),
            should_cache,
            "Method {} should be cacheable: {}",
            method,
            should_cache
        );
    }
}

#[test]
fn test_predicate_with_headers() {
    let builder = RedisCacheMiddlewareBuilder::new("redis://localhost")
        .cache_if(|ctx: &CacheContext| !ctx.headers.contains_key("Authorization"));

    let mut headers = header::HeaderMap::new();
    let ctx_no_auth = CacheContext {
        method: "GET",
        path: "/test",
        query_string: "",
        headers: &headers,
        body: &Value::Null,
    };

    assert!(
        builder.cache_if.decide(&ctx_no_auth),
        "Request without Authorization should be cached"
    );

    headers.insert(
        header::AUTHORIZATION,
        header::HeaderValue::from_static("Bearer token"),
    );

    let ctx_with_auth = CacheContext {
        method: "GET",
        path: "/test",
        query_string: "",
        headers: &headers,
        body: &Value::Null,
    };

    assert!(
        !builder.cache_if.decide(&ctx_with_auth),
        "Request with Authorization should not be cached"
    );
}

#[test]
fn test_predicate_with_path_patterns() {
    let builder = RedisCacheMiddlewareBuilder::new("redis://localhost").cache_if(
        |ctx: &CacheContext| !ctx.path.starts_with("/admin") && !ctx.path.contains("/private/"),
    );

    let cacheable_paths = ["/", "/api/users", "/public/resource", "/api/v1/data"];

    for path in cacheable_paths {
        let ctx = CacheContext {
            method: "GET",
            path,
            query_string: "",
            headers: &header::HeaderMap::new(),
            body: &Value::Null,
        };

        assert!(builder.cache_if.decide(&ctx), "Path {} should be cacheable", path);
    }

    let non_cacheable_paths = ["/admin", "/admin/users", "/users/private/profile"];

    for path in non_cacheable_paths {
        let ctx = CacheContext {
            method: "GET",
            path,
            query_string: "",
            headers: &header::HeaderMap::new(),
            body: &Value::Null,
        };

        assert!(!builder.cache_if.decide(&ctx), "Path {} should not be cacheable", path);
    }
}

#[test]
fn builder_accepts_owned_text() {
    let builder = RedisCacheMiddlewareBuilder::new(String::from("redis://host:1"))
        .cache_prefix(String::from("p"));
    assert_eq!(builder.redis_url, "redis://host:1");
    assert_eq!(builder.cache_prefix, "p");
    assert_eq!(builder.ttl, 3600);
}

#[test]
fn settings_reach_the_service() {
    let middleware = RedisCacheMiddlewareBuilder::new("redis://localhost")
        .ttl(5)
        .max_cacheable_size(7)
        .cache_prefix("p:")
        .cache_if(|ctx| ctx.path == "/yes")
        .with_cache_key(|ctx| format!("{}!", ctx.path))
        .build();
    assert!(middleware.redis_conn.is_none());

    let service = middleware.clone().new_transform(11u8);
    assert_eq!(*service.service, 11);
    assert!(service.redis_conn.is_none());
    assert_eq!(service.redis_url, "redis://localhost");
    assert_eq!(service.ttl, 5);
    assert_eq!(service.max_cacheable_size, 7);
    assert_eq!(service.cache_prefix, "p:");

    let headers = header::HeaderMap::new();
    let ctx = CacheContext {
        method: "GET",
        path: "/yes",
        query_string: "",
        headers: &headers,
        body: &Value::Null,
    };
    assert!(service.cache_if.decide(&ctx));
    assert_eq!(service.cache_key_fn.unwrap().base_key(&ctx), "/yes!");
}

#[test]
fn middleware_has_default_settings() {
    let middleware = RedisCacheMiddleware::new("redis://localhost");
    assert_eq!(middleware.redis_url, "redis://localhost");
    assert_eq!(middleware.ttl, 3600);
    assert_eq!(middleware.max_cacheable_size, 1048576);
    assert_eq!(middleware.cache_prefix, "cache:");
    assert!(middleware.redis_conn.is_none());
    assert!(middleware.cache_key_fn.is_none());
}
