use pgdog_result_cache::config::{OwnedTable, ResultCacheConfig};
use pgdog_result_cache::crypto::derive_key;
use pgdog_result_cache::digest::{hex_digit, to_hex};
use pgdog_result_cache::keys::{
    assemble_key, build_key, fingerprint_input, lock_key, tag_set_key, CacheableRequest, RouteSig,
};
use pgdog_result_cache::settings::ResultCache;

fn cfg_with(rc: ResultCache) -> ResultCacheConfig {
    ResultCacheConfig::from_global_config(Some(ResultCache { enabled: true, ..rc })).unwrap()
}

fn request(query: &str, params: Vec<Vec<u8>>, route: RouteSig, tables: Vec<OwnedTable>) -> CacheableRequest {
    CacheableRequest { query: query.to_string(), parameters: params, route_sig: route, tables }
}

#[test]
fn hex_encoding() {
    assert_eq!(to_hex(&[0x00, 0x0f, 0xa5, 0xff]), "000fa5ff");
    assert_eq!(to_hex(&[]), "");
    assert_eq!(hex_digit(11), "b");
}

#[test]
fn encryption_key_is_sha256_of_the_secret() {
    assert_eq!(
        to_hex(&derive_key("abc")),
        "ba7816bf8f01cfea414140de5dae2223b00361a396177a9cb410ff61f20015ad"
    );
}

#[test]
fn key_layout_from_digests() {
    let k = assemble_key("p", "db", "u", &[0xab], RouteSig::Cross, &[0x01, 0x02]);
    assert_eq!(k, "p:v1:db:u:ab:cross:0102");
}

#[test]
fn fingerprint_bytes_are_query_then_parameters() {
    let b = fingerprint_input("q", &vec![b"12".to_vec(), b"".to_vec(), b"3".to_vec()]);
    assert_eq!(b, b"q123".to_vec());
}

#[test]
fn build_key_exact_value() {
    let cfg = cfg_with(ResultCache::default());
    let req = request(
        "SELECT * FROM users WHERE id = $1",
        vec![b"42".to_vec()],
        RouteSig::Direct,
        vec![OwnedTable { name: "users".to_string(), schema: None }],
    );
    let key = build_key(&cfg, "prod", "alice", "", &req).unwrap();
    assert_eq!(
        key.redis_key,
        "pgdog:result_cache:v1:prod:alice:0c9aa5324e9f11a3de9bad9e08a186c7:direct:bc58a1b04ce9a499643dbae08c5881e1"
    );
    assert_eq!(key.ttl, Some(30));
    assert_eq!(key.max_entry_bytes, 524288);
}

#[test]
fn build_key_uses_search_path_and_route() {
    let cfg = cfg_with(ResultCache { key_prefix: Some("kp".to_string()), ..Default::default() });
    let req = request("SELECT 1", vec![], RouteSig::Cross, vec![]);
    let key = build_key(&cfg, "d", "u", "\"$user\", public", &req).unwrap();
    assert_eq!(
        key.redis_key,
        "kp:v1:d:u:f0951326810b7c60378e82f3cef3f98c:cross:b1698e52a0f16203489454196a0c6307"
    );
}

#[test]
fn build_key_refuses_filtered_tables() {
    let cfg = cfg_with(ResultCache {
        cache_unsafe_table_list: vec!["^secrets$".to_string()],
        ..Default::default()
    });
    let req = request(
        "SELECT * FROM secrets",
        vec![],
        RouteSig::Direct,
        vec![
            OwnedTable { name: "users".to_string(), schema: None },
            OwnedTable { name: "secrets".to_string(), schema: None },
        ],
    );
    assert!(build_key(&cfg, "d", "u", "", &req).is_none());
}

#[test]
fn tag_and_lock_keys() {
    let with_schema = OwnedTable { name: "users".to_string(), schema: Some("public".to_string()) };
    let without = OwnedTable { name: "users".to_string(), schema: None };
    assert_eq!(tag_set_key("pfx", "db", &with_schema), "pfx:tbl:db:public.users");
    assert_eq!(tag_set_key("pfx", "db", &without), "pfx:tbl:db:_.users");
    assert_eq!(lock_key("pfx", "pfx:v1:k"), "pfx:lock:pfx:v1:k");
}
