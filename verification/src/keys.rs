//! Cache keys, table tag keys and lock keys.

use vstd::prelude::*;

use crate::config::{OwnedTable, ResultCacheConfig};
use crate::digest::{hex_lower, lemma_hex_injective, lemma_hex_len, md5_compute, md5_digest, push_hex};

verus! {

/// How a read was routed: to one shard, or across shards.
#[derive(Clone, Copy, Debug, PartialEq, Eq)]
pub enum RouteSig {
    Direct,
    Cross,
}

impl RouteSig {
    /// The text of the route in cache keys.
    pub open spec fn text(self) -> Seq<char> {
        match self {
            RouteSig::Direct => "direct"@,
            RouteSig::Cross => "cross"@,
        }
    }

    /// The text of the route in cache keys: `direct` or `cross`.
    pub fn as_str(&self) -> (s: &'static str)
        ensures
            s@ == self.text(),
    {
        match self {
            RouteSig::Direct => "direct",
            RouteSig::Cross => "cross",
        }
    }
}

/// A read request that may be served from the cache.
#[derive(Clone, Debug)]
pub struct CacheableRequest {
    /// SQL text.
    pub query: String,
    /// Bind parameter values, in order.
    pub parameters: Vec<Vec<u8>>,
    /// How the request was routed.
    pub route_sig: RouteSig,
    /// Tables the statement reads.
    pub tables: Vec<OwnedTable>,
}

/// A cache key with what storing under it needs.
#[derive(Clone, Debug, PartialEq, Eq)]
pub struct ResultCacheKey {
    /// The Redis key of the entry.
    pub redis_key: String,
    /// Time to live of the entry, in whole seconds.
    pub ttl: Option<u64>,
    /// Largest value, in bytes, stored under this key.
    pub max_entry_bytes: usize,
}

/// The byte views of the parameters, in order.
pub open spec fn parameter_bytes(params: Seq<Vec<u8>>) -> Seq<Seq<u8>> {
    params.map_values(|p: Vec<u8>| p@)
}

/// All the byte strings, one after the other.
pub open spec fn concat_bytes(parts: Seq<Seq<u8>>) -> Seq<u8>
    decreases parts.len(),
{
    if parts.len() == 0 {
        Seq::<u8>::empty()
    } else {
        concat_bytes(parts.drop_last()) + parts.last()
    }
}

/// Session signature: hex MD5 of `search_path=<search_path>`.
pub open spec fn session_signature(search_path: Seq<char>) -> Seq<char> {
    hex_lower(md5_digest(vstd::utf8::encode_utf8("search_path="@ + search_path)))
}

/// Query fingerprint: hex MD5 of the SQL text's bytes followed by every
/// parameter's bytes.
pub open spec fn fingerprint(query: Seq<char>, params: Seq<Seq<u8>>) -> Seq<char> {
    hex_lower(md5_digest(vstd::utf8::encode_utf8(query) + concat_bytes(params)))
}

/// `{prefix}:v1:{db}:{user}:{session}:{route}:{fingerprint}`.
pub open spec fn key_text(
    prefix: Seq<char>,
    db: Seq<char>,
    user: Seq<char>,
    session: Seq<char>,
    route: Seq<char>,
    fingerprint: Seq<char>,
) -> Seq<char> {
    prefix + ":v1:"@ + db + ":"@ + user + ":"@ + session + ":"@ + route + ":"@ + fingerprint
}

/// `{prefix}:tbl:{db}:{schema}.{table}`, `_` standing for a missing schema.
pub open spec fn tag_text(prefix: Seq<char>, db: Seq<char>, table: OwnedTable) -> Seq<char> {
    let schema = match table.schema {
        Some(s) => s@,
        None => "_"@,
    };
    prefix + ":tbl:"@ + db + ":"@ + schema + "."@ + table.name@
}

/// `{prefix}:lock:{redis_key}`.
pub open spec fn lock_text(prefix: Seq<char>, redis_key: Seq<char>) -> Seq<char> {
    prefix + ":lock:"@ + redis_key
}

/// Sessions whose `search_path` settings hash to different MD5 digests
/// get different cache keys, all else being equal.
pub proof fn distinct_search_paths_give_distinct_keys(
    prefix: Seq<char>,
    db: Seq<char>,
    user: Seq<char>,
    search_path_1: Seq<char>,
    search_path_2: Seq<char>,
    route: Seq<char>,
    fingerprint: Seq<char>,
)
    requires
        md5_digest(vstd::utf8::encode_utf8("search_path="@ + search_path_1)) != md5_digest(
            vstd::utf8::encode_utf8("search_path="@ + search_path_2),
        ),
    ensures
        key_text(prefix, db, user, session_signature(search_path_1), route, fingerprint)
            != key_text(prefix, db, user, session_signature(search_path_2), route, fingerprint),
{
    let d1 = md5_digest(vstd::utf8::encode_utf8("search_path="@ + search_path_1));
    let d2 = md5_digest(vstd::utf8::encode_utf8("search_path="@ + search_path_2));
    let s1 = session_signature(search_path_1);
    let s2 = session_signature(search_path_2);
    let x = prefix + ":v1:"@ + db + ":"@ + user + ":"@;
    let y = ":"@ + route + ":"@ + fingerprint;
    let k1 = key_text(prefix, db, user, s1, route, fingerprint);
    let k2 = key_text(prefix, db, user, s2, route, fingerprint);
    assert(k1 =~= x + s1 + y);
    assert(k2 =~= x + s2 + y);
    lemma_hex_len(d1);
    lemma_hex_len(d2);
    if k1 == k2 {
        assert(s1.len() == s2.len());
        assert(s1 =~= k1.subrange(x.len() as int, (x.len() + s1.len()) as int));
        assert(s2 =~= k2.subrange(x.len() as int, (x.len() + s2.len()) as int));
        lemma_hex_injective(d1, d2);
    }
}

/// The key layouts: a cache key is the prefix, `:v1:`, the database, the
/// user, the session signature, the route and the fingerprint, joined by
/// `:`; a tag key is the prefix, `:tbl:`, the database and
/// `schema.table` (`_` for no schema); a lock key is the prefix, `:lock:`
/// and the entry's key. The session signature and the fingerprint are
/// 32 hex digits when their digests are MD5's 16 bytes.
pub proof fn key_layouts(
    prefix: Seq<char>,
    db: Seq<char>,
    user: Seq<char>,
    session: Seq<char>,
    route: Seq<char>,
    fp: Seq<char>,
    table: OwnedTable,
    redis_key: Seq<char>,
    digest: Seq<u8>,
)
    ensures
        key_text(prefix, db, user, session, route, fp) == prefix + (":v1:"@ + db + ":"@ + user
            + ":"@ + session + ":"@ + route + ":"@ + fp),
        table.schema is None ==> tag_text(prefix, db, table) == prefix + ":tbl:"@ + db + ":"@
            + "_"@ + "."@ + table.name@,
        table.schema matches Some(s) ==> tag_text(prefix, db, table) == prefix + ":tbl:"@ + db
            + ":"@ + s@ + "."@ + table.name@,
        lock_text(prefix, redis_key) == prefix + ":lock:"@ + redis_key,
        RouteSig::Direct.text() == "direct"@,
        RouteSig::Cross.text() == "cross"@,
        digest.len() == 16 ==> hex_lower(digest).len() == 32,
{
    lemma_hex_len(digest);
    assert(key_text(prefix, db, user, session, route, fp) =~= prefix + (":v1:"@ + db + ":"@
        + user + ":"@ + session + ":"@ + route + ":"@ + fp));
}

/// Builds the key text from the two MD5 digests.
pub fn assemble_key(
    prefix: &str,
    db: &str,
    user: &str,
    session_digest: &[u8],
    route: RouteSig,
    fingerprint_digest: &[u8],
) -> (k: String)
    ensures
        k@ == key_text(
            prefix@,
            db@,
            user@,
            hex_lower(session_digest@),
            route.text(),
            hex_lower(fingerprint_digest@),
        ),
{
    let mut k = String::from_str(prefix);
    k.append(":v1:");
    k.append(db);
    k.append(":");
    k.append(user);
    k.append(":");
    push_hex(&mut k, session_digest);
    k.append(":");
    k.append(route.as_str());
    k.append(":");
    push_hex(&mut k, fingerprint_digest);
    assert(k@ =~= key_text(
        prefix@,
        db@,
        user@,
        hex_lower(session_digest@),
        route.text(),
        hex_lower(fingerprint_digest@),
    ));
    k
}

/// The bytes hashed for the fingerprint: the SQL text's bytes, then each
/// parameter's bytes.
pub fn fingerprint_input(query: &str, params: &Vec<Vec<u8>>) -> (b: Vec<u8>)
    ensures
        b@ == vstd::utf8::encode_utf8(query@) + concat_bytes(parameter_bytes(params@)),
{
    let mut b: Vec<u8> = Vec::new();
    b.extend_from_slice(query.as_bytes());
    assert(b@ =~= vstd::utf8::encode_utf8(query@));
    let ghost pv = parameter_bytes(params@);
    let n = params.len();
    let mut i: usize = 0;
    while i < n
        invariant
            n == params@.len(),
            i <= n,
            pv == parameter_bytes(params@),
            b@ == vstd::utf8::encode_utf8(query@) + concat_bytes(pv.take(i as int)),
        decreases n - i,
    {
        let ghost before = b@;
        b.extend_from_slice(params[i].as_slice());
        assert(b@ =~= before + params@[i as int]@);
        assert(pv.take(i + 1).drop_last() =~= pv.take(i as int));
        assert(pv.take(i + 1).last() == params@[i as int]@);
        i = i + 1;
    }
    assert(pv.take(n as int) =~= pv);
    b
}

/// Whether every table passes the configuration's filter.
pub fn all_tables_allowed(cfg: &ResultCacheConfig, tables: &Vec<OwnedTable>) -> (b: bool)
    ensures
        b == (forall|i: int|
            0 <= i < tables@.len() ==> cfg.allows(
                #[trigger] tables@[i].schema_text(),
                tables@[i].name@,
            )),
{
    let n = tables.len();
    let mut i: usize = 0;
    while i < n
        invariant
            n == tables@.len(),
            i <= n,
            forall|j: int|
                0 <= j < i ==> cfg.allows(#[trigger] tables@[j].schema_text(), tables@[j].name@),
        decreases n - i,
    {
        if !cfg.table_allowed(&tables[i]) {
            return false;
        }
        i = i + 1;
    }
    true
}

/// The cache key of a read request, or none when a table it reads is
/// filtered out.
///
/// `search_path` is the session's `search_path` setting (empty when unset).
pub fn build_key(
    cfg: &ResultCacheConfig,
    db: &str,
    user: &str,
    search_path: &str,
    req: &CacheableRequest,
) -> (r: Option<ResultCacheKey>)
    ensures
        r is Some <==> (forall|i: int|
            0 <= i < req.tables@.len() ==> cfg.allows(
                #[trigger] req.tables@[i].schema_text(),
                req.tables@[i].name@,
            )),
        r matches Some(k) ==> {
            &&& k.redis_key@ == key_text(
                cfg.key_prefix@,
                db@,
                user@,
                session_signature(search_path@),
                req.route_sig.text(),
                fingerprint(req.query@, parameter_bytes(req.parameters@)),
            )
            &&& k.ttl == cfg.expire_seconds
            &&& k.max_entry_bytes == cfg.max_entry_bytes
        },
{
    if !all_tables_allowed(cfg, &req.tables) {
        return None;
    }
    let session_text = String::from_str("search_path=").concat(search_path);
    let session_digest = md5_compute(session_text.as_str().as_bytes());
    let fp_input = fingerprint_input(req.query.as_str(), &req.parameters);
    let fp_digest = md5_compute(fp_input.as_slice());
    let redis_key = assemble_key(
        cfg.key_prefix.as_str(),
        db,
        user,
        session_digest.as_slice(),
        req.route_sig,
        fp_digest.as_slice(),
    );
    Some(ResultCacheKey { redis_key, ttl: cfg.ttl(), max_entry_bytes: cfg.max_entry_bytes })
}

/// The key of the set that tags entries reading `table`.
pub fn tag_set_key(prefix: &str, db: &str, table: &OwnedTable) -> (k: String)
    ensures
        k@ == tag_text(prefix@, db@, *table),
{
    let schema: &str = match &table.schema {
        Some(s) => s.as_str(),
        None => "_",
    };
    let k = String::from_str(prefix).concat(":tbl:").concat(db).concat(":").concat(schema).concat(
        ".",
    ).concat(table.name.as_str());
    assert(k@ =~= tag_text(prefix@, db@, *table));
    k
}

/// The key of the cross-node lock for an entry.
pub fn lock_key(prefix: &str, redis_key: &str) -> (k: String)
    ensures
        k@ == lock_text(prefix@, redis_key@),
{
    String::from_str(prefix).concat(":lock:").concat(redis_key)
}

} // verus!
