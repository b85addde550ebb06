//! Effective result-cache configuration and the schema/table filter.

use vstd::prelude::*;

use crate::pattern::{regex_compiles, regex_matches, CompiledRegex};
use crate::settings::ResultCache;

verus! {

/// Default expiration of entries, in seconds.
pub const DEFAULT_EXPIRE_SECONDS: u64 = 30;

/// Default largest stored entry: 512 KiB.
pub const DEFAULT_MAX_ENTRY_BYTES: usize = 524288;

/// Default in-process follower timeout, in milliseconds.
pub const DEFAULT_SINGLEFLIGHT_TIMEOUT_MS: u64 = 5000;

/// Default cap of the adaptive TTL, in seconds.
pub const DEFAULT_MAX_EXPIRE_SECONDS: u64 = 300;

/// Bit pattern of the default XFetch `beta`, `1.0_f64`.
pub const DEFAULT_XFETCH_BETA_BITS: u64 = 0x3FF0_0000_0000_0000;

/// Bit pattern of the XFetch `delta` (estimated recompute time), `0.2_f64` seconds.
pub const DEFAULT_XFETCH_DELTA_SECS_BITS: u64 = 0x3FC9_9999_9999_999A;

/// Default cross-node waiter timeout, in milliseconds.
pub const DEFAULT_DISTRIBUTED_SINGLEFLIGHT_TIMEOUT_MS: u64 = 3000;

/// Default read-after-write window, in milliseconds.
pub const DEFAULT_READ_AFTER_WRITE_WINDOW_MS: u64 = 2000;

/// The default key prefix.
pub open spec fn default_key_prefix() -> Seq<char> {
    "pgdog:result_cache"@
}

/// A table named by a statement, with its schema when the statement gives one.
#[derive(Clone, Debug, PartialEq)]
pub struct OwnedTable {
    pub name: String,
    pub schema: Option<String>,
}

impl OwnedTable {
    /// The schema, or the empty text when there is none.
    pub open spec fn schema_text(&self) -> Seq<char> {
        match self.schema {
            Some(s) => s@,
            None => Seq::<char>::empty(),
        }
    }
}

/// `schema.table`, or just `table` when the schema is empty.
pub open spec fn qualified_name(schema: Seq<char>, name: Seq<char>) -> Seq<char> {
    if schema.len() == 0 {
        name
    } else {
        schema + "."@ + name
    }
}

/// The pattern texts of a list of compiled patterns.
pub open spec fn patterns(list: Seq<CompiledRegex>) -> Seq<Seq<char>> {
    Seq::new(list.len(), |i: int| list[i].pattern())
}

/// The patterns that compile, in their order, out of a configured list.
pub open spec fn compiled_patterns(list: Seq<String>) -> Seq<Seq<char>> {
    list.map_values(|s: String| s@).filter(|p: Seq<char>| regex_compiles(p))
}

/// Whether some pattern of the list matches the value.
pub open spec fn any_matches(list: Seq<Seq<char>>, value: Seq<char>) -> bool {
    exists|i: int| 0 <= i < list.len() && #[trigger] regex_matches(list[i], value)
}

/// The filter's rule, over the outcome of each pattern search: deny lists win,
/// an empty allow list allows everything, and a table without schema passes
/// a non-empty schema allow list never.
pub open spec fn filter_rule(
    schema_empty: bool,
    unsafe_schema_hit: bool,
    unsafe_table_hit: bool,
    safe_schema_empty: bool,
    safe_schema_hit: bool,
    safe_table_empty: bool,
    safe_table_hit: bool,
) -> bool {
    &&& !(!schema_empty && unsafe_schema_hit)
    &&& !unsafe_table_hit
    &&& (safe_schema_empty || (!schema_empty && safe_schema_hit))
    &&& (safe_table_empty || safe_table_hit)
}

/// Applies [`filter_rule`] to the outcomes of the pattern searches.
pub fn filter_decision(
    schema_empty: bool,
    unsafe_schema_hit: bool,
    unsafe_table_hit: bool,
    safe_schema_empty: bool,
    safe_schema_hit: bool,
    safe_table_empty: bool,
    safe_table_hit: bool,
) -> (allowed: bool)
    ensures
        allowed == filter_rule(
            schema_empty,
            unsafe_schema_hit,
            unsafe_table_hit,
            safe_schema_empty,
            safe_schema_hit,
            safe_table_empty,
            safe_table_hit,
        ),
{
    if !schema_empty && unsafe_schema_hit {
        return false;
    }
    if unsafe_table_hit {
        return false;
    }
    let schema_ok = safe_schema_empty || (!schema_empty && safe_schema_hit);
    let table_ok = safe_table_empty || safe_table_hit;
    schema_ok && table_ok
}

/// Compiles each pattern, keeping in order those that compile and dropping
/// the others.
pub fn compile_list(list: &Vec<String>) -> (r: Vec<CompiledRegex>)
    ensures
        patterns(r@) == compiled_patterns(list@),
{
    let ghost views = list@.map_values(|s: String| s@);
    let ghost pred = |p: Seq<char>| regex_compiles(p);
    let mut r: Vec<CompiledRegex> = Vec::new();
    let n = list.len();
    let mut i: usize = 0;
    while i < n
        invariant
            n == list@.len(),
            i <= n,
            views == list@.map_values(|s: String| s@),
            pred == (|p: Seq<char>| regex_compiles(p)),
            patterns(r@) =~= views.take(i as int).filter(pred),
        decreases n - i,
    {
        reveal(Seq::filter);
        assert(views.take(i + 1).drop_last() =~= views.take(i as int));
        assert(views.take(i + 1).last() == list@[i as int]@);
        match CompiledRegex::compile(&list[i]) {
            Some(c) => {
                r.push(c);
                assert(patterns(r@) =~= views.take(i as int).filter(pred).push(list@[i as int]@));
            },
            None => {},
        }
        i = i + 1;
    }
    assert(views.take(n as int) =~= views);
    r
}

/// Whether some regex of the list matches the value.
pub fn matches_any(list: &Vec<CompiledRegex>, value: &str) -> (b: bool)
    ensures
        b == any_matches(patterns(list@), value@),
{
    let n = list.len();
    let mut i: usize = 0;
    while i < n
        invariant
            n == list@.len(),
            i <= n,
            forall|j: int| 0 <= j < i ==> !regex_matches(#[trigger] patterns(list@)[j], value@),
        decreases n - i,
    {
        if list[i].is_match(value) {
            assert(regex_matches(patterns(list@)[i as int], value@));
            return true;
        }
        i = i + 1;
    }
    false
}

/// The effective configuration of the result cache: the settings with
/// their defaults applied and the filter lists compiled.
#[derive(Clone, Debug)]
pub struct ResultCacheConfig {
    pub enabled: bool,
    pub redis_url: String,
    pub expire_seconds: Option<u64>,
    pub max_entry_bytes: usize,
    pub encryption_key: Option<String>,
    pub key_prefix: String,
    pub singleflight_enabled: bool,
    pub singleflight_timeout_ms: u64,
    pub adaptive_ttl_enabled: bool,
    pub max_expire_seconds: u64,
    pub xfetch_enabled: bool,
    /// Bit pattern of the `f64` XFetch `beta`.
    pub xfetch_beta_bits: u64,
    /// Bit pattern of the `f64` XFetch `delta`, in seconds.
    pub xfetch_delta_secs_bits: u64,
    pub distributed_singleflight_enabled: bool,
    pub distributed_singleflight_timeout_ms: u64,
    pub read_after_write_consistency_enabled: bool,
    pub read_after_write_window_ms: u64,
    pub safe_schema_list: Vec<CompiledRegex>,
    pub unsafe_schema_list: Vec<CompiledRegex>,
    pub safe_table_list: Vec<CompiledRegex>,
    pub unsafe_table_list: Vec<CompiledRegex>,
}

/// `o`, or `d` when it is `None`.
pub open spec fn or_default<T>(o: Option<T>, d: T) -> T {
    match o {
        Some(v) => v,
        None => d,
    }
}

impl ResultCacheConfig {
    /// This configuration is the one derived from the settings `rc`.
    pub open spec fn derived_from(&self, rc: ResultCache) -> bool {
        &&& self.enabled == rc.enabled
        &&& self.redis_url@ == rc.redis_url@
        &&& self.expire_seconds == Some(or_default(rc.expire_seconds, DEFAULT_EXPIRE_SECONDS))
        &&& self.max_entry_bytes == or_default(rc.max_entry_bytes, DEFAULT_MAX_ENTRY_BYTES)
        &&& self.encryption_key == rc.encryption_key
        &&& self.key_prefix@ == (match rc.key_prefix {
            Some(p) => p@,
            None => default_key_prefix(),
        })
        &&& self.singleflight_enabled == or_default(rc.singleflight_enabled, true)
        &&& self.singleflight_timeout_ms == or_default(
            rc.singleflight_timeout_ms,
            DEFAULT_SINGLEFLIGHT_TIMEOUT_MS,
        )
        &&& self.adaptive_ttl_enabled == or_default(rc.adaptive_ttl_enabled, true)
        &&& self.max_expire_seconds == or_default(rc.max_expire_seconds, DEFAULT_MAX_EXPIRE_SECONDS)
        &&& self.xfetch_enabled == or_default(rc.xfetch_enabled, true)
        &&& self.xfetch_beta_bits == or_default(rc.xfetch_beta_bits, DEFAULT_XFETCH_BETA_BITS)
        &&& self.xfetch_delta_secs_bits == DEFAULT_XFETCH_DELTA_SECS_BITS
        &&& self.distributed_singleflight_enabled == or_default(
            rc.distributed_singleflight_enabled,
            true,
        )
        &&& self.distributed_singleflight_timeout_ms == or_default(
            rc.distributed_singleflight_timeout_ms,
            DEFAULT_DISTRIBUTED_SINGLEFLIGHT_TIMEOUT_MS,
        )
        &&& self.read_after_write_consistency_enabled == or_default(
            rc.read_after_write_consistency_enabled,
            true,
        )
        &&& self.read_after_write_window_ms == or_default(
            rc.read_after_write_window_ms,
            DEFAULT_READ_AFTER_WRITE_WINDOW_MS,
        )
        &&& patterns(self.safe_schema_list@) == compiled_patterns(rc.cache_safe_schema_list@)
        &&& patterns(self.unsafe_schema_list@) == compiled_patterns(rc.cache_unsafe_schema_list@)
        &&& patterns(self.safe_table_list@) == compiled_patterns(rc.cache_safe_table_list@)
        &&& patterns(self.unsafe_table_list@) == compiled_patterns(rc.cache_unsafe_table_list@)
    }

    /// The effective configuration for the `[result_cache]` settings: none when
    /// the section is absent or the cache is not enabled.
    pub fn from_global_config(rc: Option<ResultCache>) -> (r: Option<ResultCacheConfig>)
        ensures
            r is Some <==> (rc matches Some(s) && s.enabled),
            r matches Some(cfg) ==> cfg.derived_from(rc->0),
    {
        let rc = match rc {
            Some(rc) => rc,
            None => return None,
        };
        if !rc.enabled {
            return None;
        }
        let expire_seconds = match rc.expire_seconds {
            Some(s) => Some(s),
            None => Some(DEFAULT_EXPIRE_SECONDS),
        };
        let max_entry_bytes = match rc.max_entry_bytes {
            Some(b) => b,
            None => DEFAULT_MAX_ENTRY_BYTES,
        };
        let key_prefix = match rc.key_prefix {
            Some(p) => p,
            None => String::from_str("pgdog:result_cache"),
        };
        let safe_schema_list = compile_list(&rc.cache_safe_schema_list);
        let unsafe_schema_list = compile_list(&rc.cache_unsafe_schema_list);
        let safe_table_list = compile_list(&rc.cache_safe_table_list);
        let unsafe_table_list = compile_list(&rc.cache_unsafe_table_list);
        Some(ResultCacheConfig {
            enabled: rc.enabled,
            redis_url: rc.redis_url,
            expire_seconds,
            max_entry_bytes,
            encryption_key: rc.encryption_key,
            key_prefix,
            singleflight_enabled: match rc.singleflight_enabled {
                Some(b) => b,
                None => true,
            },
            singleflight_timeout_ms: match rc.singleflight_timeout_ms {
                Some(t) => t,
                None => DEFAULT_SINGLEFLIGHT_TIMEOUT_MS,
            },
            adaptive_ttl_enabled: match rc.adaptive_ttl_enabled {
                Some(b) => b,
                None => true,
            },
            max_expire_seconds: match rc.max_expire_seconds {
                Some(t) => t,
                None => DEFAULT_MAX_EXPIRE_SECONDS,
            },
            xfetch_enabled: match rc.xfetch_enabled {
                Some(b) => b,
                None => true,
            },
            xfetch_beta_bits: match rc.xfetch_beta_bits {
                Some(b) => b,
                None => DEFAULT_XFETCH_BETA_BITS,
            },
            xfetch_delta_secs_bits: DEFAULT_XFETCH_DELTA_SECS_BITS,
            distributed_singleflight_enabled: match rc.distributed_singleflight_enabled {
                Some(b) => b,
                None => true,
            },
            distributed_singleflight_timeout_ms: match rc.distributed_singleflight_timeout_ms {
                Some(t) => t,
                None => DEFAULT_DISTRIBUTED_SINGLEFLIGHT_TIMEOUT_MS,
            },
            read_after_write_consistency_enabled: match rc.read_after_write_consistency_enabled {
                Some(b) => b,
                None => true,
            },
            read_after_write_window_ms: match rc.read_after_write_window_ms {
                Some(t) => t,
                None => DEFAULT_READ_AFTER_WRITE_WINDOW_MS,
            },
            safe_schema_list,
            unsafe_schema_list,
            safe_table_list,
            unsafe_table_list,
        })
    }

    /// The time to live of new entries, in whole seconds.
    pub fn ttl(&self) -> (r: Option<u64>)
        ensures
            r == self.expire_seconds,
    {
        self.expire_seconds
    }

    /// Whether results that read the table (schema text `schema`, name
    /// `name`) may be cached under this configuration.
    pub open spec fn allows(&self, schema: Seq<char>, name: Seq<char>) -> bool {
        let qualified = qualified_name(schema, name);
        filter_rule(
            schema.len() == 0,
            any_matches(patterns(self.unsafe_schema_list@), schema),
            any_matches(patterns(self.unsafe_table_list@), qualified) || any_matches(
                patterns(self.unsafe_table_list@),
                name,
            ),
            self.safe_schema_list@.len() == 0,
            any_matches(patterns(self.safe_schema_list@), schema),
            self.safe_table_list@.len() == 0,
            any_matches(patterns(self.safe_table_list@), qualified) || any_matches(
                patterns(self.safe_table_list@),
                name,
            ),
        )
    }

    /// Whether results that read `table` may be cached: no deny pattern
    /// matches (the schema, or the table as `table` or `schema.table`), and
    /// every non-empty allow list has a matching pattern.
    pub fn table_allowed(&self, table: &OwnedTable) -> (b: bool)
        ensures
            b == self.allows(table.schema_text(), table.name@),
    {
        let schema: &str = match &table.schema {
            Some(s) => s.as_str(),
            None => "",
        };
        proof {
            reveal_strlit("");
        }
        let table_only = table.name.as_str();
        let schema_empty = schema.is_empty();
        let schema_table: String = if schema_empty {
            String::from_str(table_only)
        } else {
            String::from_str(schema).concat(".").concat(table_only)
        };
        assert(schema_table@ == qualified_name(schema@, table_only@));
        let schema_table = schema_table.as_str();

        let unsafe_schema_hit = !schema_empty && matches_any(&self.unsafe_schema_list, schema);
        let unsafe_table_hit = matches_any(&self.unsafe_table_list, schema_table) || matches_any(
            &self.unsafe_table_list,
            table_only,
        );
        let safe_schema_hit = !schema_empty && matches_any(&self.safe_schema_list, schema);
        let safe_table_hit = matches_any(&self.safe_table_list, schema_table) || matches_any(
            &self.safe_table_list,
            table_only,
        );
        filter_decision(
            schema_empty,
            unsafe_schema_hit,
            unsafe_table_hit,
            self.safe_schema_list.len() == 0,
            safe_schema_hit,
            self.safe_table_list.len() == 0,
            safe_table_hit,
        )
    }
}

/// Deny lists win: a table whose (non-empty) schema matches the schema
/// deny list, or whose name or qualified name matches the table deny list,
/// is never cached, whatever the allow lists hold.
pub proof fn deny_lists_win(cfg: ResultCacheConfig, schema: Seq<char>, name: Seq<char>)
    requires
        (schema.len() > 0 && any_matches(patterns(cfg.unsafe_schema_list@), schema)) || any_matches(
            patterns(cfg.unsafe_table_list@),
            qualified_name(schema, name),
        ) || any_matches(patterns(cfg.unsafe_table_list@), name),
    ensures
        !cfg.allows(schema, name),
{
}

/// Empty allow lists allow every table that no deny list refuses.
pub proof fn empty_allow_lists_allow(cfg: ResultCacheConfig, schema: Seq<char>, name: Seq<char>)
    requires
        cfg.safe_schema_list@.len() == 0,
        cfg.safe_table_list@.len() == 0,
        !(schema.len() > 0 && any_matches(patterns(cfg.unsafe_schema_list@), schema)),
        !any_matches(patterns(cfg.unsafe_table_list@), qualified_name(schema, name)),
        !any_matches(patterns(cfg.unsafe_table_list@), name),
    ensures
        cfg.allows(schema, name),
{
}

/// With a non-empty schema allow list, a table without schema is never cached.
pub proof fn schema_allow_list_needs_schema(cfg: ResultCacheConfig, name: Seq<char>)
    requires
        cfg.safe_schema_list@.len() > 0,
    ensures
        !cfg.allows(Seq::<char>::empty(), name),
{
}

/// The documented defaults: with only `enabled` and `redis_url` given, the
/// effective configuration expires entries after 30 s, stores entries of up
/// to 512 KiB under the prefix `pgdog:result_cache`, turns on every feature
/// with followers waiting 5000 ms, cross-node waiters 3000 ms, an adaptive
/// TTL cap of 300 s, an XFetch beta of 1.0, a read-after-write window of
/// 2000 ms, and no filter lists.
pub proof fn documented_defaults(cfg: ResultCacheConfig, rc: ResultCache)
    requires
        cfg.derived_from(rc),
        rc.expire_seconds is None,
        rc.max_entry_bytes is None,
        rc.key_prefix is None,
        rc.encryption_key is None,
        rc.singleflight_enabled is None,
        rc.singleflight_timeout_ms is None,
        rc.adaptive_ttl_enabled is None,
        rc.max_expire_seconds is None,
        rc.xfetch_enabled is None,
        rc.xfetch_beta_bits is None,
        rc.distributed_singleflight_enabled is None,
        rc.distributed_singleflight_timeout_ms is None,
        rc.read_after_write_consistency_enabled is None,
        rc.read_after_write_window_ms is None,
        rc.cache_safe_schema_list@.len() == 0,
        rc.cache_unsafe_schema_list@.len() == 0,
        rc.cache_safe_table_list@.len() == 0,
        rc.cache_unsafe_table_list@.len() == 0,
    ensures
        cfg.expire_seconds == Some(30u64),
        cfg.max_entry_bytes == 512 * 1024,
        cfg.key_prefix@ == "pgdog:result_cache"@,
        cfg.encryption_key is None,
        cfg.singleflight_enabled,
        cfg.singleflight_timeout_ms == 5000,
        cfg.adaptive_ttl_enabled,
        cfg.max_expire_seconds == 300,
        cfg.xfetch_enabled,
        cfg.xfetch_beta_bits == 0x3FF0_0000_0000_0000u64,
        cfg.xfetch_delta_secs_bits == 0x3FC9_9999_9999_999Au64,
        cfg.distributed_singleflight_enabled,
        cfg.distributed_singleflight_timeout_ms == 3000,
        cfg.read_after_write_consistency_enabled,
        cfg.read_after_write_window_ms == 2000,
        cfg.safe_schema_list@.len() == 0,
        cfg.unsafe_schema_list@.len() == 0,
        cfg.safe_table_list@.len() == 0,
        cfg.unsafe_table_list@.len() == 0,
{
    broadcast use vstd::seq_lib::group_filter_ensures;

    assert(patterns(cfg.safe_schema_list@).len() == cfg.safe_schema_list@.len());
    assert(patterns(cfg.unsafe_schema_list@).len() == cfg.unsafe_schema_list@.len());
    assert(patterns(cfg.safe_table_list@).len() == cfg.safe_table_list@.len());
    assert(patterns(cfg.unsafe_table_list@).len() == cfg.unsafe_table_list@.len());
}

/// A table whose (non-empty) schema matches a pattern of the schema allow
/// list, and whose names pass the table lists, is cached.
pub proof fn schema_allow_list_admits_matching_schema(
    cfg: ResultCacheConfig,
    schema: Seq<char>,
    name: Seq<char>,
    k: int,
)
    requires
        schema.len() > 0,
        0 <= k < cfg.safe_schema_list@.len(),
        regex_matches(cfg.safe_schema_list@[k].pattern(), schema),
        cfg.safe_table_list@.len() == 0,
        forall|i: int|
            0 <= i < cfg.unsafe_schema_list@.len() ==> !regex_matches(
                #[trigger] cfg.unsafe_schema_list@[i].pattern(),
                schema,
            ),
        forall|i: int|
            0 <= i < cfg.unsafe_table_list@.len() ==> !regex_matches(
                #[trigger] cfg.unsafe_table_list@[i].pattern(),
                name,
            ) && !regex_matches(cfg.unsafe_table_list@[i].pattern(), qualified_name(schema, name)),
    ensures
        cfg.allows(schema, name),
{
    assert(patterns(cfg.safe_schema_list@)[k] == cfg.safe_schema_list@[k].pattern());
}

/// Every configured pattern that compiles is kept in the compiled list, and
/// every kept pattern is a configured one that compiles.
pub proof fn compiled_lists_keep_every_valid_pattern(list: Seq<String>)
    ensures
        forall|i: int|
            0 <= i < list.len() && regex_compiles(#[trigger] list[i]@) ==> compiled_patterns(
                list,
            ).contains(list[i]@),
        forall|j: int|
            0 <= j < compiled_patterns(list).len() ==> regex_compiles(
                #[trigger] compiled_patterns(list)[j],
            ) && exists|i: int| 0 <= i < list.len() && list[i]@ == compiled_patterns(list)[j],
        compiled_patterns(list).len() <= list.len(),
{
    broadcast use vstd::seq_lib::group_filter_ensures;

    let views = list.map_values(|s: String| s@);
    let pred = |p: Seq<char>| regex_compiles(p);
    assert forall|i: int| 0 <= i < list.len() && regex_compiles(#[trigger] list[i]@) implies compiled_patterns(
        list,
    ).contains(list[i]@) by {
        assert(views[i] == list[i]@);
        views.lemma_filter_contains(pred, i);
    }
    assert forall|j: int| 0 <= j < compiled_patterns(list).len() implies regex_compiles(
        #[trigger] compiled_patterns(list)[j],
    ) && exists|i: int| 0 <= i < list.len() && list[i]@ == compiled_patterns(list)[j] by {
        let p = compiled_patterns(list)[j];
        views.lemma_filter_pred(pred, j);
        assert(views.filter(pred).contains(p));
        views.lemma_filter_contains_rev(pred, p);
        let i = choose|i: int| 0 <= i < views.len() && views[i] == p;
        assert(list[i]@ == p);
    }
}

/// A table whose bare name matches a pattern of the table allow list is
/// cached when nothing denies it and the schema allow list is empty; so is
/// one whose `schema.table` name matches.
pub proof fn table_allow_list_matches_name_or_qualified_name(
    cfg: ResultCacheConfig,
    schema: Seq<char>,
    name: Seq<char>,
    k: int,
)
    requires
        0 <= k < cfg.safe_table_list@.len(),
        regex_matches(cfg.safe_table_list@[k].pattern(), name) || regex_matches(
            cfg.safe_table_list@[k].pattern(),
            qualified_name(schema, name),
        ),
        cfg.safe_schema_list@.len() == 0,
        forall|i: int|
            0 <= i < cfg.unsafe_schema_list@.len() ==> !(schema.len() > 0 && regex_matches(
                #[trigger] cfg.unsafe_schema_list@[i].pattern(),
                schema,
            )),
        forall|i: int|
            0 <= i < cfg.unsafe_table_list@.len() ==> !regex_matches(
                #[trigger] cfg.unsafe_table_list@[i].pattern(),
                name,
            ) && !regex_matches(cfg.unsafe_table_list@[i].pattern(), qualified_name(schema, name)),
    ensures
        cfg.allows(schema, name),
{
    assert(patterns(cfg.safe_table_list@)[k] == cfg.safe_table_list@[k].pattern());
}

/// When the table allow list is not empty, a table neither of whose names
/// (`table`, `schema.table`) matches any of its patterns is not cached.
pub proof fn table_allow_list_refuses_unmatched(
    cfg: ResultCacheConfig,
    schema: Seq<char>,
    name: Seq<char>,
)
    requires
        cfg.safe_table_list@.len() > 0,
        forall|i: int|
            0 <= i < cfg.safe_table_list@.len() ==> !regex_matches(
                #[trigger] cfg.safe_table_list@[i].pattern(),
                name,
            ) && !regex_matches(cfg.safe_table_list@[i].pattern(), qualified_name(schema, name)),
    ensures
        !cfg.allows(schema, name),
{
    assert forall|i: int|
        0 <= i < patterns(cfg.safe_table_list@).len() implies !regex_matches(
        #[trigger] patterns(cfg.safe_table_list@)[i],
        name,
    ) && !regex_matches(patterns(cfg.safe_table_list@)[i], qualified_name(schema, name)) by {
        assert(patterns(cfg.safe_table_list@)[i] == cfg.safe_table_list@[i].pattern());
    }
}

} // verus!
