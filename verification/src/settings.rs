//! The `[result_cache]` section of the proxy configuration, as read from
//! the configuration file.

use vstd::prelude::*;

verus! {

/// Settings of the result cache. Every field but `enabled` and `redis_url`
/// may be left out; the effective values are computed by
/// `ResultCacheConfig::from_global_config`.
///
/// `xfetch_beta_bits` holds the IEEE-754 bit pattern of the `f64`
/// aggressiveness factor of XFetch; this library only carries it through.
#[derive(Clone, Debug, Default, PartialEq)]
pub struct ResultCache {
    /// Enable the Redis/RESP result cache.
    pub enabled: bool,
    /// Redis connection URL, e.g. `redis://127.0.0.1:6379`.
    pub redis_url: String,
    /// Expiration time of cached entries, in seconds.
    pub expire_seconds: Option<u64>,
    /// Largest entry, in bytes, that is stored.
    pub max_entry_bytes: Option<usize>,
    /// Prefix of every key the cache writes.
    pub key_prefix: Option<String>,
    /// Secret from which the encryption key is derived.
    pub encryption_key: Option<String>,
    /// In-process stampede protection.
    pub singleflight_enabled: Option<bool>,
    /// How long in-process followers wait, in milliseconds.
    pub singleflight_timeout_ms: Option<u64>,
    /// Extend the TTL of entries that are hit.
    pub adaptive_ttl_enabled: Option<bool>,
    /// Cap of the adaptive TTL, in seconds.
    pub max_expire_seconds: Option<u64>,
    /// Evaluate the XFetch early-refresh condition on hits.
    pub xfetch_enabled: Option<bool>,
    /// Bit pattern of the XFetch `beta` (an `f64`).
    pub xfetch_beta_bits: Option<u64>,
    /// Cross-node stampede protection through a Redis lock.
    pub distributed_singleflight_enabled: Option<bool>,
    /// How long cross-node waiters wait, in milliseconds (also the lock's PX).
    pub distributed_singleflight_timeout_ms: Option<u64>,
    /// Bypass the cache for tables the session wrote to recently.
    pub read_after_write_consistency_enabled: Option<bool>,
    /// Length of that bypass window, in milliseconds.
    pub read_after_write_window_ms: Option<u64>,
    /// Reserved; has no effect.
    pub granular_invalidation_enabled: Option<bool>,
    /// Allow-list of schemas (regular expressions).
    pub cache_safe_schema_list: Vec<String>,
    /// Deny-list of schemas (regular expressions); wins over the allow-list.
    pub cache_unsafe_schema_list: Vec<String>,
    /// Allow-list of tables (regular expressions), matched against `table`
    /// and `schema.table`.
    pub cache_safe_table_list: Vec<String>,
    /// Deny-list of tables (regular expressions); wins over the allow-list.
    pub cache_unsafe_table_list: Vec<String>,
}

} // verus!
