# actix_request_reply_cache

A request-reply cache for Actix Web services, backed by Redis, with its decisions verified
by Verus.

- `src/` is the verified library: the configuration builder, cache keys, cache control, the
  course of a request through the cache (`lookup`), the recording of its response
  (`record`), the replies made of stored responses (`reply`), and what holds of all of them
  together (`laws`). `src/foreign/` holds the contracts that are believed of other crates.
- `app/` is the Actix Web middleware around it: it talks to Redis and to the inner service.
- `tests/` runs the library.

Requests whose `Cache-Control` holds `no-cache` or `no-store` pass by the cache. Any other
request is looked up if the predicate accepts it; on a miss, a successful response is
recorded while it is sent, unless a `Cache-Control` of its own holds one of the two words.
It is written to Redis with the configured time to live once its body has come, without an
error, to its end or to the size that it announced, if the body is not empty and within the
size limit. Nothing is written where memory does not suffice to serialize the response, or
where it has more headers or bytes than MessagePack can count.
