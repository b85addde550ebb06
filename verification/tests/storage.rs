use pgdog_result_cache::config::OwnedTable;
use pgdog_result_cache::config::ResultCacheConfig;
use pgdog_result_cache::crypto::{decrypt, derive_key, encrypt, encrypt_with_nonce, nonce_for};
use pgdog_result_cache::digest::to_hex;
use pgdog_result_cache::keys::ResultCacheKey;
use pgdog_result_cache::ops::{
    connection_current, extend_ttl_action, invalidation_tag_keys, keep_waiting, lock_acquired,
    invalidation_step, needs_remaining_ttl, read_outcome, set_plan, tag_ttl_seconds,
    tagged_set_plan, ReadOutcome, SetPlan, TagInvalidation, TtlAction,
};
use pgdog_result_cache::settings::ResultCache;

fn key(ttl: Option<u64>, max: usize) -> ResultCacheKey {
    ResultCacheKey { redis_key: "k".to_string(), ttl, max_entry_bytes: max }
}

#[test]
fn encryption_round_trip() {
    let blob = encrypt("a-long-random-secret", b"row data").unwrap();
    assert_eq!(blob.len(), 12 + 8 + 16);
    assert_ne!(&blob[12..20], b"row data");
    assert_eq!(decrypt("a-long-random-secret", &blob).unwrap(), b"row data".to_vec());
}

#[test]
fn decryption_failures_give_none() {
    let blob = encrypt("right", b"payload").unwrap();
    assert!(decrypt("wrong", &blob).is_none());
    let mut tampered = blob.clone();
    tampered[20] ^= 1;
    assert!(decrypt("right", &tampered).is_none());
    assert!(decrypt("right", &blob[..11]).is_none());
    assert!(decrypt("right", &blob[..27]).is_none());
}

#[test]
fn key_derivation_is_sha256_of_secret() {
    assert_eq!(
        to_hex(&derive_key("")),
        "e3b0c44298fc1c149afbf4c8996fb92427ae41e4649b934ca495991b7852b855"
    );
    assert_eq!(derive_key("secret").len(), 32);
}

#[test]
fn store_plans() {
    assert!(matches!(set_plan(&None, &key(Some(30), 100), b"", &None), SetPlan::Skip));
    match set_plan(&None, &key(Some(30), 100), b"abc", &None) {
        SetPlan::StoreExpiring { value, seconds } => {
            assert_eq!(value, b"abc".to_vec());
            assert_eq!(seconds, 30);
        }
        other => panic!("unexpected {:?}", other),
    }
    match set_plan(&None, &key(Some(0), 100), b"abc", &None) {
        SetPlan::Store { value } => assert_eq!(value, b"abc".to_vec()),
        other => panic!("unexpected {:?}", other),
    }
    match set_plan(&None, &key(None, 100), b"abc", &None) {
        SetPlan::Store { value } => assert_eq!(value, b"abc".to_vec()),
        other => panic!("unexpected {:?}", other),
    }
    assert!(matches!(set_plan(&None, &key(Some(30), 2), b"abc", &None), SetPlan::Skip));
    assert!(matches!(set_plan(&None, &key(Some(30), 3), b"abc", &None), SetPlan::StoreExpiring { .. }));
}

#[test]
fn encrypted_store_limits_the_payload_size() {
    let secret = Some("s".to_string());
    // 3 bytes of payload become 12 + 3 + 16 = 31 stored bytes; the limit
    // applies to the payload.
    assert!(matches!(set_plan(&secret, &key(Some(5), 2), b"abc", &nonce_for(&secret)), SetPlan::Skip));
    match set_plan(&secret, &key(Some(5), 3), b"abc", &nonce_for(&secret)) {
        SetPlan::StoreExpiring { value, seconds } => {
            assert_eq!(value.len(), 31);
            assert_eq!(seconds, 5);
            assert_eq!(decrypt("s", &value).unwrap(), b"abc".to_vec());
        }
        other => panic!("unexpected {:?}", other),
    }
}

#[test]
fn written_value_reads_back() {
    let secret = Some("s".to_string());
    let value = match set_plan(&secret, &key(Some(5), 1000), b"payload", &nonce_for(&secret)) {
        SetPlan::StoreExpiring { value, .. } => value,
        other => panic!("unexpected {:?}", other),
    };
    match read_outcome(&secret, Ok(value), Ok(4)) {
        ReadOutcome::Hit { payload, remaining_ttl } => {
            assert_eq!(payload, b"payload".to_vec());
            assert_eq!(remaining_ttl, Some(4));
        }
        other => panic!("unexpected {:?}", other),
    }
}

#[test]
fn read_outcomes() {
    assert!(matches!(read_outcome(&None, Err(()), Ok(3)), ReadOutcome::RedisError));
    assert!(matches!(read_outcome(&None, Ok(vec![]), Ok(3)), ReadOutcome::Miss));
    match read_outcome(&None, Ok(vec![1, 2]), Err(())) {
        ReadOutcome::Hit { payload, remaining_ttl } => {
            assert_eq!(payload, vec![1, 2]);
            assert_eq!(remaining_ttl, Some(0));
        }
        other => panic!("unexpected {:?}", other),
    }
    let secret = Some("s".to_string());
    assert!(matches!(read_outcome(&secret, Ok(vec![1, 2, 3]), Ok(3)), ReadOutcome::DecryptFailed));
    assert_eq!(read_outcome(&None, Ok(vec![9]), Ok(1)).payload(), Some(vec![9]));
    assert_eq!(read_outcome(&secret, Ok(vec![9]), Ok(1)).payload(), None);
    assert!(needs_remaining_ttl(&Ok(vec![1])));
    assert!(!needs_remaining_ttl(&Ok(vec![])));
    assert!(!needs_remaining_ttl(&Err(())));
}

#[test]
fn adaptive_ttl_extends_up_to_the_cap() {
    assert_eq!(
        extend_ttl_action(true, 300, Some(30), 10),
        TtlAction::Expire { seconds: 40, extended: true }
    );
    assert_eq!(
        extend_ttl_action(true, 300, Some(30), 290),
        TtlAction::Expire { seconds: 300, extended: true }
    );
    assert_eq!(extend_ttl_action(true, 300, Some(30), 300), TtlAction::Keep);
    assert_eq!(
        extend_ttl_action(true, 300, Some(30), 0),
        TtlAction::Expire { seconds: 30, extended: false }
    );
    assert_eq!(
        extend_ttl_action(true, 300, Some(30), -1),
        TtlAction::Expire { seconds: 30, extended: false }
    );
    assert_eq!(extend_ttl_action(true, 300, None, 10), TtlAction::Keep);
    assert_eq!(
        extend_ttl_action(true, 300, Some(u64::MAX / 2), 10),
        TtlAction::Expire { seconds: 300, extended: true }
    );
}

#[test]
fn sliding_expiration_without_adaptive_ttl() {
    assert_eq!(
        extend_ttl_action(false, 300, Some(30), 10),
        TtlAction::Expire { seconds: 30, extended: false }
    );
    assert_eq!(
        extend_ttl_action(false, 300, Some(30), 500),
        TtlAction::Expire { seconds: 30, extended: false }
    );
    assert_eq!(extend_ttl_action(false, 300, None, 10), TtlAction::Keep);
}

#[test]
fn tag_ttl_is_twice_the_ttl_and_at_least_a_minute() {
    assert_eq!(tag_ttl_seconds(Some(30)), 60);
    assert_eq!(tag_ttl_seconds(None), 60);
    assert_eq!(tag_ttl_seconds(Some(10)), 60);
    assert_eq!(tag_ttl_seconds(Some(100)), 200);
    assert_eq!(tag_ttl_seconds(Some(u64::MAX)), u64::MAX);
}

fn tables() -> Vec<OwnedTable> {
    vec![
        OwnedTable { name: "users".to_string(), schema: Some("public".to_string()) },
        OwnedTable { name: "orders".to_string(), schema: None },
    ]
}

#[test]
fn tagged_store_writes_tags() {
    let cfg = ResultCacheConfig::from_global_config(Some(ResultCache {
        enabled: true,
        ..Default::default()
    }))
    .unwrap();
    let (plan, tags) = tagged_set_plan(&cfg, "db", &key(Some(30), 100), b"x", &tables(), &None).unwrap();
    assert!(matches!(plan, SetPlan::StoreExpiring { .. }));
    let tags = tags.unwrap();
    assert_eq!(tags.ttl_seconds, 60);
    assert_eq!(
        tags.tag_keys,
        vec!["pgdog:result_cache:tbl:db:public.users", "pgdog:result_cache:tbl:db:_.orders"]
    );
    let (plan, tags) = tagged_set_plan(&cfg, "db", &key(Some(30), 100), b"", &tables(), &None).unwrap();
    assert!(matches!(plan, SetPlan::Skip));
    assert!(tags.is_none());
    // an oversized payload is not stored, but its tags are still written
    let (plan, tags) = tagged_set_plan(&cfg, "db", &key(Some(30), 0), b"x", &tables(), &None).unwrap();
    assert!(matches!(plan, SetPlan::Skip));
    assert!(tags.is_some());
}

#[test]
fn tagged_store_refuses_filtered_tables() {
    let cfg = ResultCacheConfig::from_global_config(Some(ResultCache {
        enabled: true,
        cache_unsafe_table_list: vec!["orders".to_string()],
        ..Default::default()
    }))
    .unwrap();
    assert!(tagged_set_plan(&cfg, "db", &key(Some(30), 100), b"x", &tables(), &None).is_none());
}

#[test]
fn invalidation_keys() {
    assert_eq!(
        invalidation_tag_keys("p", "db", &tables()),
        vec!["p:tbl:db:public.users", "p:tbl:db:_.orders"]
    );
    assert!(invalidation_tag_keys("p", "db", &vec![]).is_empty());
}

#[test]
fn connection_reuse_and_locks() {
    let cfg = ResultCacheConfig::from_global_config(Some(ResultCache {
        enabled: true,
        redis_url: "redis://a".to_string(),
        ..Default::default()
    }))
    .unwrap();
    let prefix = "pgdog:result_cache".to_string();
    assert!(connection_current(&Some("redis://a".to_string()), true, &prefix, &cfg));
    assert!(!connection_current(&Some("redis://b".to_string()), true, &prefix, &cfg));
    assert!(!connection_current(&Some("redis://a".to_string()), false, &prefix, &cfg));
    assert!(!connection_current(&None, true, &prefix, &cfg));
    assert!(!connection_current(&Some("redis://a".to_string()), true, &"other".to_string(), &cfg));
    assert!(lock_acquired(&Ok(Some("OK".to_string()))));
    assert!(!lock_acquired(&Ok(None)));
    assert!(!lock_acquired(&Err(())));
    assert!(keep_waiting(10, 3000));
    assert!(!keep_waiting(3000, 3000));
}

#[test]
fn invalidation_steps() {
    match invalidation_step("t".to_string(), Ok(vec!["a".to_string(), "b".to_string()])) {
        TagInvalidation::Delete { keys } => assert_eq!(keys, vec!["a", "b", "t"]),
        other => panic!("unexpected {:?}", other),
    }
    match invalidation_step("t".to_string(), Ok(vec![])) {
        TagInvalidation::Delete { keys } => assert_eq!(keys, vec!["t"]),
        other => panic!("unexpected {:?}", other),
    }
    assert!(matches!(invalidation_step("t".to_string(), Err(())), TagInvalidation::Failed));
}

#[test]
fn config_clones() {
    let cfg = ResultCacheConfig::from_global_config(Some(ResultCache {
        enabled: true,
        cache_safe_table_list: vec!["^users$".to_string()],
        ..Default::default()
    }))
    .unwrap();
    let copy = cfg.clone();
    let t = OwnedTable { name: "users".to_string(), schema: None };
    assert!(copy.table_allowed(&t));
    assert_eq!(copy.safe_table_list[0].as_str(), "^users$");
}

#[test]
fn encryption_with_a_given_nonce() {
    let nonce = [7u8; 12];
    let a = encrypt_with_nonce("k", &nonce, b"hello").unwrap();
    let b = encrypt_with_nonce("k", &nonce, b"hello").unwrap();
    assert_eq!(a, b);
    assert_eq!(&a[..12], &nonce);
    assert_eq!(a.len(), 12 + 5 + 16);
    assert_ne!(&a[12..17], b"hello");
    assert_eq!(decrypt("k", &a).unwrap(), b"hello".to_vec());
    let other = encrypt_with_nonce("k", &[8u8; 12], b"hello").unwrap();
    assert_ne!(a, other);
}

#[test]
fn nonces_only_with_a_secret() {
    assert!(nonce_for(&None).is_none());
    assert_eq!(nonce_for(&Some("s".to_string())).unwrap().len(), 12);
}

#[test]
fn encrypted_store_without_a_nonce_is_skipped() {
    let secret = Some("s".to_string());
    assert!(matches!(set_plan(&secret, &key(Some(5), 100), b"abc", &None), SetPlan::Skip));
    let nonce = Some(vec![1u8; 12]);
    match set_plan(&secret, &key(None, 100), b"abc", &nonce) {
        SetPlan::Store { value } => {
            assert_eq!(value, encrypt_with_nonce("s", &[1u8; 12], b"abc").unwrap());
        }
        other => panic!("unexpected {:?}", other),
    }
}
