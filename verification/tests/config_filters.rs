use pgdog_result_cache::config::{
    compile_list, filter_decision, matches_any, OwnedTable, ResultCacheConfig,
    DEFAULT_XFETCH_BETA_BITS, DEFAULT_XFETCH_DELTA_SECS_BITS,
};
use pgdog_result_cache::settings::ResultCache;

fn enabled() -> ResultCache {
    ResultCache { enabled: true, redis_url: "redis://127.0.0.1:6379".to_string(), ..Default::default() }
}

fn table(schema: Option<&str>, name: &str) -> OwnedTable {
    OwnedTable { name: name.to_string(), schema: schema.map(|s| s.to_string()) }
}

fn strings(list: &[&str]) -> Vec<String> {
    list.iter().map(|s| s.to_string()).collect()
}

#[test]
fn missing_or_disabled_section_gives_no_config() {
    assert!(ResultCacheConfig::from_global_config(None).is_none());
    assert!(ResultCacheConfig::from_global_config(Some(ResultCache::default())).is_none());
}

#[test]
fn defaults_follow_the_documentation() {
    let cfg = ResultCacheConfig::from_global_config(Some(enabled())).unwrap();
    assert!(cfg.enabled);
    assert_eq!(cfg.redis_url, "redis://127.0.0.1:6379");
    assert_eq!(cfg.expire_seconds, Some(30));
    assert_eq!(cfg.ttl(), Some(30));
    assert_eq!(cfg.max_entry_bytes, 524288);
    assert_eq!(cfg.key_prefix, "pgdog:result_cache");
    assert_eq!(cfg.encryption_key, None);
    assert!(cfg.singleflight_enabled);
    assert_eq!(cfg.singleflight_timeout_ms, 5000);
    assert!(cfg.adaptive_ttl_enabled);
    assert_eq!(cfg.max_expire_seconds, 300);
    assert!(cfg.xfetch_enabled);
    assert_eq!(f64::from_bits(cfg.xfetch_beta_bits), 1.0);
    assert_eq!(cfg.xfetch_beta_bits, DEFAULT_XFETCH_BETA_BITS);
    assert_eq!(f64::from_bits(cfg.xfetch_delta_secs_bits), 0.2);
    assert_eq!(cfg.xfetch_delta_secs_bits, DEFAULT_XFETCH_DELTA_SECS_BITS);
    assert!(cfg.distributed_singleflight_enabled);
    assert_eq!(cfg.distributed_singleflight_timeout_ms, 3000);
    assert!(cfg.read_after_write_consistency_enabled);
    assert_eq!(cfg.read_after_write_window_ms, 2000);
    assert!(cfg.safe_schema_list.is_empty());
    assert!(cfg.unsafe_table_list.is_empty());
}

#[test]
fn given_settings_override_defaults() {
    let rc = ResultCache {
        expire_seconds: Some(10),
        max_entry_bytes: Some(1024),
        key_prefix: Some("app".to_string()),
        encryption_key: Some("secret".to_string()),
        singleflight_enabled: Some(false),
        singleflight_timeout_ms: Some(7),
        adaptive_ttl_enabled: Some(false),
        max_expire_seconds: Some(60),
        xfetch_enabled: Some(false),
        xfetch_beta_bits: Some(2.5f64.to_bits()),
        distributed_singleflight_enabled: Some(false),
        distributed_singleflight_timeout_ms: Some(9),
        read_after_write_consistency_enabled: Some(false),
        read_after_write_window_ms: Some(11),
        ..enabled()
    };
    let cfg = ResultCacheConfig::from_global_config(Some(rc)).unwrap();
    assert_eq!(cfg.expire_seconds, Some(10));
    assert_eq!(cfg.max_entry_bytes, 1024);
    assert_eq!(cfg.key_prefix, "app");
    assert_eq!(cfg.encryption_key.as_deref(), Some("secret"));
    assert!(!cfg.singleflight_enabled);
    assert_eq!(cfg.singleflight_timeout_ms, 7);
    assert!(!cfg.adaptive_ttl_enabled);
    assert_eq!(cfg.max_expire_seconds, 60);
    assert!(!cfg.xfetch_enabled);
    assert_eq!(f64::from_bits(cfg.xfetch_beta_bits), 2.5);
    assert!(!cfg.distributed_singleflight_enabled);
    assert_eq!(cfg.distributed_singleflight_timeout_ms, 9);
    assert!(!cfg.read_after_write_consistency_enabled);
    assert_eq!(cfg.read_after_write_window_ms, 11);
}

#[test]
fn invalid_patterns_are_dropped_in_order() {
    let list = compile_list(&strings(&["^a", "(", "b$", "[z"]));
    let sources: Vec<&str> = list.iter().map(|c| c.as_str()).collect();
    assert_eq!(sources, vec!["^a", "b$"]);
    assert!(compile_list(&strings(&["(", "[z"])).is_empty());
}

#[test]
fn matches_any_searches_unanchored() {
    let list = compile_list(&strings(&["^users$", "log"]));
    assert!(matches_any(&list, "users"));
    assert!(matches_any(&list, "audit_logs"));
    assert!(!matches_any(&list, "orders"));
    assert!(!matches_any(&Vec::new(), "users"));
}

#[test]
fn empty_lists_allow_everything() {
    let cfg = ResultCacheConfig::from_global_config(Some(enabled())).unwrap();
    assert!(cfg.table_allowed(&table(None, "users")));
    assert!(cfg.table_allowed(&table(Some("public"), "users")));
}

#[test]
fn unsafe_schema_wins_over_safe_lists() {
    let rc = ResultCache {
        cache_safe_schema_list: strings(&[".*"]),
        cache_unsafe_schema_list: strings(&["^secret$"]),
        cache_safe_table_list: strings(&[".*"]),
        ..enabled()
    };
    let cfg = ResultCacheConfig::from_global_config(Some(rc)).unwrap();
    assert!(!cfg.table_allowed(&table(Some("secret"), "users")));
    assert!(cfg.table_allowed(&table(Some("public"), "users")));
}

#[test]
fn unsafe_table_matches_name_or_qualified_name() {
    let rc = ResultCache {
        cache_unsafe_table_list: strings(&["^billing\\.invoices$", "^sessions$"]),
        ..enabled()
    };
    let cfg = ResultCacheConfig::from_global_config(Some(rc)).unwrap();
    assert!(!cfg.table_allowed(&table(Some("billing"), "invoices")));
    assert!(cfg.table_allowed(&table(Some("public"), "invoices")));
    assert!(!cfg.table_allowed(&table(Some("public"), "sessions")));
    assert!(!cfg.table_allowed(&table(None, "sessions")));
}

#[test]
fn safe_schema_list_requires_a_matching_schema() {
    let rc = ResultCache { cache_safe_schema_list: strings(&["^public$"]), ..enabled() };
    let cfg = ResultCacheConfig::from_global_config(Some(rc)).unwrap();
    assert!(cfg.table_allowed(&table(Some("public"), "users")));
    assert!(!cfg.table_allowed(&table(Some("other"), "users")));
    assert!(!cfg.table_allowed(&table(None, "users")));
    assert!(!cfg.table_allowed(&table(Some(""), "users")));
}

#[test]
fn safe_table_list_requires_a_matching_table() {
    let rc = ResultCache { cache_safe_table_list: strings(&["^public\\.users$"]), ..enabled() };
    let cfg = ResultCacheConfig::from_global_config(Some(rc)).unwrap();
    assert!(cfg.table_allowed(&table(Some("public"), "users")));
    assert!(!cfg.table_allowed(&table(None, "users")));
    assert!(!cfg.table_allowed(&table(Some("public"), "orders")));
}

#[test]
fn filter_decision_rule() {
    // deny on schema only counts with a schema
    assert!(!filter_decision(false, true, false, true, false, true, false));
    assert!(filter_decision(true, true, false, true, false, true, false));
    // table deny
    assert!(!filter_decision(false, false, true, true, true, true, true));
    // allow lists
    assert!(!filter_decision(false, false, false, false, false, true, false));
    assert!(filter_decision(false, false, false, false, true, true, false));
    assert!(!filter_decision(true, false, false, false, true, true, false));
    assert!(!filter_decision(false, false, false, true, false, false, false));
    assert!(filter_decision(false, false, false, true, false, false, true));
}
