# pgdog_result_cache

The decision logic of a Redis-backed query result cache for a PostgreSQL
proxy, with Verus contracts:

- `settings`, `config`: the `[result_cache]` settings, their defaults, and
  the regex schema/table allow and deny lists (`pattern` wraps `regex`).
- `keys`, `digest`: cache keys (MD5 session signature and query
  fingerprint, lower-case hex), table tag keys, lock keys.
- `crypto`: AES-256-GCM encryption of stored values under a SHA-256
  derived key.
- `ops`: what a store writes, what a read yields, how a hit changes the
  TTL, which tag sets a store or an invalidation touches.
- `singleflight`: one leader per key in flight.
- `stats`: counters and their metrics.
- `rewrite`: which extended-protocol messages are rewritten, and when the
  query parser must run for the cache.

`app/` holds the Redis connection and commands, the async singleflight
channels, the process-wide counters, configuration parsing with serde, and
the floating-point XFetch check.
