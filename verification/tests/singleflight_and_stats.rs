use std::sync::mpsc;

use pgdog_result_cache::rewrite::{
    first_word_of, forces_parser, MessageKind, PreparedStatements, QueryEngine,
};
use pgdog_result_cache::singleflight::{SingleflightGroup, SingleflightResult, SingleflightStatus};
use pgdog_result_cache::stats::ResultCache;

#[test]
fn test_singleflight_leader_and_followers() {
    let mut group: SingleflightGroup<mpsc::Sender<SingleflightResult>> = SingleflightGroup::new();
    let key = "test_key";

    let (tx, rx) = mpsc::channel();
    let guard = match group.enter(key, tx) {
        SingleflightStatus::Leader(guard) => guard,
        _ => panic!("Expected Leader"),
    };

    let (unused, _) = mpsc::channel();
    match group.enter(key, unused) {
        SingleflightStatus::Follower => (),
        _ => panic!("Expected Follower"),
    }
    assert!(group.sender(key).is_some());

    let payload = vec![1, 2, 3, 4];
    let delivery = guard.finish(&mut group, SingleflightResult::Success(payload.clone())).unwrap();
    delivery.sender.send(delivery.result).unwrap();

    match rx.recv_timeout(std::time::Duration::from_millis(500)).unwrap() {
        SingleflightResult::Success(bytes) => assert_eq!(bytes, payload),
        _ => panic!("Expected Success"),
    }
    assert!(group.sender(key).is_none());
}

#[test]
fn test_singleflight_leader_drop_notifies_error() {
    let mut group: SingleflightGroup<mpsc::Sender<SingleflightResult>> = SingleflightGroup::new();
    let key = "test_drop_key";

    let (tx, rx) = mpsc::channel();
    let mut guard = match group.enter(key, tx) {
        SingleflightStatus::Leader(guard) => guard,
        _ => panic!("Expected Leader"),
    };
    let (unused, _) = mpsc::channel();
    assert!(matches!(group.enter(key, unused), SingleflightStatus::Follower));

    let delivery = guard.abandon(&mut group).unwrap();
    delivery.sender.send(delivery.result).unwrap();
    assert_eq!(rx.recv_timeout(std::time::Duration::from_millis(500)).unwrap(), SingleflightResult::Error);
    // dropping again does nothing
    assert!(guard.abandon(&mut group).is_none());
}

#[test]
fn flight_ends_free_the_key() {
    let mut group: SingleflightGroup<u32> = SingleflightGroup::default();
    let g1 = match group.enter("a", 1) {
        SingleflightStatus::Leader(g) => g,
        _ => panic!("Expected Leader"),
    };
    let g2 = match group.enter("b", 2) {
        SingleflightStatus::Leader(g) => g,
        _ => panic!("Expected Leader"),
    };
    assert_eq!(g1.key_str(), "a");
    assert_eq!(group.sender("a"), Some(&1));
    let d = g1.finish(&mut group, SingleflightResult::Error).unwrap();
    assert_eq!(d.sender, 1);
    assert_eq!(group.sender("a"), None);
    assert_eq!(group.sender("b"), Some(&2));
    assert!(matches!(group.enter("a", 3), SingleflightStatus::Leader(_)));
    assert_eq!(group.sender("a"), Some(&3));
    let d = g2.finish(&mut group, SingleflightResult::Success(vec![7])).unwrap();
    assert_eq!(d.sender, 2);
    assert_eq!(d.result, SingleflightResult::Success(vec![7]));
}

#[test]
fn counters() {
    let mut c = ResultCache::new();
    c.hit(10);
    c.miss();
    c.store(20);
    c.redis_error();
    c.singleflight_joined(5);
    c.singleflight_timeout();
    c.ttl_extended();
    c.xfetch_trigger();
    c.distributed_singleflight_joined(7);
    c.read_after_write_bypass();
    assert_eq!(c.hits, 3);
    assert_eq!(c.bytes_served, 22);
    assert_eq!(c.misses, 1);
    assert_eq!(c.stores, 1);
    assert_eq!(c.bytes_stored, 20);
    assert_eq!(c.redis_errors, 1);
    assert_eq!(c.singleflight_joined, 1);
    assert_eq!(c.singleflight_timeouts, 1);
    assert_eq!(c.ttl_extended, 1);
    assert_eq!(c.xfetch_triggers, 1);
    assert_eq!(c.distributed_singleflight_joined, 1);
    assert_eq!(c.read_after_write_bypasses, 1);
    let mut w = ResultCache { hits: u64::MAX, ..ResultCache::default() };
    w.hit(1);
    assert_eq!(w.hits, 0);
}

#[test]
fn metrics_export() {
    let mut c = ResultCache::new();
    c.hit(3);
    let m = c.metrics();
    assert_eq!(m.len(), 12);
    assert_eq!(m[0].name(), "result_cache_hits");
    assert_eq!(m[0].help().unwrap(), "Result cache hits (cached SELECT results served)");
    assert_eq!(m[0].measurements(), vec![1]);
    assert_eq!(m[0].metric_type(), "counter");
    assert_eq!(m[3].name(), "result_cache_bytes_served");
    assert_eq!(m[3].measurements(), vec![3]);
    assert_eq!(m[11].name(), "result_cache_read_after_write_bypasses");
    let names: Vec<String> = m.iter().map(|x| x.name()).collect();
    assert!(names.contains(&"result_cache_xfetch_triggers".to_string()));
}

fn msg(extended: bool, anonymous: bool) -> MessageKind {
    MessageKind { extended, anonymous }
}

#[test]
fn rewrite_positions_by_level() {
    let engine = QueryEngine { result_cache_enabled: true };
    let msgs = vec![msg(true, true), msg(true, false), msg(false, false), msg(true, false)];
    assert_eq!(engine.extended_rewrite_positions(PreparedStatements::Extended, &msgs), vec![1, 3]);
    assert_eq!(
        engine.extended_rewrite_positions(PreparedStatements::ExtendedAnonymous, &msgs),
        vec![0, 1, 3]
    );
    assert!(engine.extended_rewrite_positions(PreparedStatements::Disabled, &msgs).is_empty());
    assert!(engine.extended_rewrite_positions(PreparedStatements::Full, &msgs).is_empty());
}

#[test]
fn rewrite_pass_applies_the_rewriter_in_order() {
    let engine = QueryEngine { result_cache_enabled: false };
    let kinds = vec![msg(true, true), msg(true, false), msg(false, false), msg(true, false)];
    let messages = vec![10, 20, 30, 40];
    let out: Result<Vec<i32>, String> =
        engine.rewrite_extended(PreparedStatements::Extended, &kinds, messages.clone(), |m| Ok(m + 1));
    assert_eq!(out.unwrap(), vec![10, 21, 30, 41]);
    let out: Result<Vec<i32>, String> =
        engine.rewrite_extended(PreparedStatements::ExtendedAnonymous, &kinds, messages.clone(), |m| Ok(m + 1));
    assert_eq!(out.unwrap(), vec![11, 21, 30, 41]);
    let out: Result<Vec<i32>, String> =
        engine.rewrite_extended(PreparedStatements::Disabled, &kinds, messages.clone(), |m| Ok(m + 1));
    assert_eq!(out.unwrap(), messages);
}

#[test]
fn rewrite_pass_stops_at_the_first_error() {
    let engine = QueryEngine { result_cache_enabled: false };
    let kinds = vec![msg(true, false), msg(true, false), msg(true, false)];
    let calls = std::cell::RefCell::new(Vec::new());
    let out: Result<Vec<i32>, String> =
        engine.rewrite_extended(PreparedStatements::Extended, &kinds, vec![1, 2, 3], |m| {
            calls.borrow_mut().push(m);
            if m == 2 { Err(format!("bad {}", m)) } else { Ok(m) }
        });
    assert_eq!(out, Err("bad 2".to_string()));
    assert_eq!(*calls.borrow(), vec![1, 2]);
}

#[test]
fn parser_forced_for_reads_and_writes() {
    assert!(forces_parser("SELECT 1"));
    assert!(forces_parser("  \n\tselect * from t"));
    assert!(forces_parser("InSeRt INTO t VALUES (1)"));
    assert!(forces_parser("update t set a = 1"));
    assert!(forces_parser("DELETE FROM t"));
    assert!(forces_parser("select"));
    assert!(!forces_parser("selectx 1"));
    assert!(!forces_parser("BEGIN"));
    assert!(!forces_parser(""));
    assert!(!forces_parser("   "));
    assert!(!forces_parser("WITH x AS (SELECT 1) SELECT * FROM x"));
    assert!(forces_parser("\u{3000}select 1"));
    assert_eq!(first_word_of("  abc def"), vec!['a', 'b', 'c']);
    let with_cache = QueryEngine { result_cache_enabled: true };
    let without_cache = QueryEngine { result_cache_enabled: false };
    assert!(without_cache.use_query_parser(true, None));
    assert!(with_cache.use_query_parser(false, Some("select 1")));
    assert!(!without_cache.use_query_parser(false, Some("select 1")));
    assert!(!with_cache.use_query_parser(false, None));
    assert!(!with_cache.use_query_parser(false, Some("SHOW x")));
}
