//! The decisions of the Redis-backed cache operations: what to write on a
//! store, what a read yields, how a hit's TTL changes, and which tag keys a
//! store or an invalidation touches. The Redis commands themselves are
//! issued by the caller.

use vstd::prelude::*;

use crate::config::{OwnedTable, ResultCacheConfig};
use crate::crypto::{
    decrypt, decrypt_blob, encrypt_with_nonce, opt_bytes, sealed_blob, NONCE_LEN,
    PLAINTEXT_MAX, TAG_LEN,
};
use crate::keys::{tag_set_key, tag_text, ResultCacheKey};

verus! {

/// What a stored value reads back as: the bytes themselves, or, with an
/// encryption secret, their decryption.
pub open spec fn decode_stored(encryption_key: Option<String>, stored: Seq<u8>) -> Option<Seq<u8>> {
    match encryption_key {
        Some(s) => decrypt_blob(s@, stored),
        None => Some(stored),
    }
}

/// Length of the value stored for a payload of `len` bytes.
pub open spec fn stored_len(encryption_key: Option<String>, len: nat) -> int {
    match encryption_key {
        Some(_) => NONCE_LEN + len + TAG_LEN,
        None => len as int,
    }
}

/// Whether a store of `payload` under `key` writes nothing whatever
/// happens: the payload is empty, exceeds the key's size limit, or is too
/// long for AES-GCM when it is to be encrypted.
pub open spec fn store_skipped(
    encryption_key: Option<String>,
    key: ResultCacheKey,
    payload: Seq<u8>,
) -> bool {
    ||| payload.len() == 0
    ||| (encryption_key is Some && payload.len() > PLAINTEXT_MAX)
    ||| payload.len() > key.max_entry_bytes
}

/// The Redis write a store performs.
#[derive(Debug)]
pub enum SetPlan {
    /// Nothing is written.
    Skip,
    /// `SET key value` (no expiration).
    Store { value: Vec<u8> },
    /// `SET key value EX seconds`.
    StoreExpiring { value: Vec<u8>, seconds: u64 },
}

impl SetPlan {
    /// The value written, if any.
    pub open spec fn written(&self) -> Option<Seq<u8>> {
        match self {
            SetPlan::Skip => None,
            SetPlan::Store { value } => Some(value@),
            SetPlan::StoreExpiring { value, .. } => Some(value@),
        }
    }

    /// Whether this is the write a store of `payload` under `key` performs,
    /// given the random nonce drawn for encryption (if any): nothing when
    /// the store is skipped; otherwise nothing exactly when encryption is
    /// configured and no nonce could be drawn; when something is written, a
    /// value that reads back as the payload (the payload itself without a
    /// secret; with one, the nonce followed by the AES-GCM ciphertext),
    /// with an expiration exactly when the key has a positive TTL.
    pub open spec fn is_store_of(
        &self,
        encryption_key: Option<String>,
        key: ResultCacheKey,
        payload: Seq<u8>,
        nonce: Option<Seq<u8>>,
    ) -> bool {
        &&& (store_skipped(encryption_key, key, payload) ==> self is Skip)
        &&& (!store_skipped(encryption_key, key, payload) ==> (self is Skip <==> (
        encryption_key is Some && nonce is None)))
        &&& self.written() matches Some(v) ==> {
            &&& v.len() == stored_len(encryption_key, payload.len())
            &&& decode_stored(encryption_key, v) == Some(payload)
            &&& encryption_key is None ==> v == payload
            &&& encryption_key matches Some(s) ==> (nonce matches Some(n) && sealed_blob(
                s@,
                n,
                payload,
            ) == Some(v))
        }
        &&& (self is StoreExpiring <==> (self.written() is Some && (key.ttl matches Some(t) && t > 0)))
        &&& self matches SetPlan::StoreExpiring { seconds, .. } ==> key.ttl == Some(*seconds)
    }
}

/// The write that stores `payload` under `key`: empty payloads and payloads
/// over the key's size limit are not cached; with a secret the payload is
/// encrypted with `nonce` (drawn by `crypto::nonce_for`), and not cached when no
/// nonce could be drawn.
pub fn set_plan(
    encryption_key: &Option<String>,
    key: &ResultCacheKey,
    payload: &[u8],
    nonce: &Option<Vec<u8>>,
) -> (p: SetPlan)
    requires
        nonce matches Some(n) ==> n@.len() == NONCE_LEN,
    ensures
        p.is_store_of(*encryption_key, *key, payload@, opt_bytes(*nonce)),
{
    if payload.len() == 0 || payload.len() > key.max_entry_bytes {
        return SetPlan::Skip;
    }
    let value: Vec<u8> = match encryption_key {
        Some(secret) => match nonce {
            Some(n) => match encrypt_with_nonce(secret.as_str(), n.as_slice(), payload) {
                Some(blob) => blob,
                None => return SetPlan::Skip,
            },
            None => return SetPlan::Skip,
        },
        None => {
            let mut v: Vec<u8> = Vec::new();
            v.extend_from_slice(payload);
            assert(v@ =~= payload@);
            v
        },
    };
    match key.ttl {
        Some(seconds) => {
            if seconds > 0 {
                SetPlan::StoreExpiring { value, seconds }
            } else {
                SetPlan::Store { value }
            }
        },
        None => SetPlan::Store { value },
    }
}

/// What a read yields, as values.
pub ghost enum ReadView {
    Hit(Seq<u8>, Option<i64>),
    Miss,
    DecryptFailed,
    RedisError,
}

/// What a read of a cache entry yields.
#[derive(Debug)]
pub enum ReadOutcome {
    /// The payload, with the entry's remaining TTL in seconds as Redis
    /// reported it (0 when the TTL query failed).
    Hit { payload: Vec<u8>, remaining_ttl: Option<i64> },
    /// No entry (or an empty one).
    Miss,
    /// The entry could not be decrypted; served as a miss.
    DecryptFailed,
    /// The `GET` failed; served as a miss and counted as a Redis error.
    RedisError,
}

impl ReadOutcome {
    pub open spec fn view(&self) -> ReadView {
        match self {
            ReadOutcome::Hit { payload, remaining_ttl } => ReadView::Hit(payload@, *remaining_ttl),
            ReadOutcome::Miss => ReadView::Miss,
            ReadOutcome::DecryptFailed => ReadView::DecryptFailed,
            ReadOutcome::RedisError => ReadView::RedisError,
        }
    }

    /// The payload served, if any.
    pub fn payload(self) -> (r: Option<Vec<u8>>)
        ensures
            opt_bytes(r) == (match self@ {
                ReadView::Hit(p, _) => Some(p),
                _ => None,
            }),
    {
        match self {
            ReadOutcome::Hit { payload, .. } => Some(payload),
            _ => None,
        }
    }
}

/// What a read yields for the `GET` reply (`None` when it failed) and the
/// `TTL` reply (`None` when it failed or was not asked).
pub open spec fn read_result(
    encryption_key: Option<String>,
    get_reply: Option<Seq<u8>>,
    ttl_reply: Option<i64>,
) -> ReadView {
    match get_reply {
        None => ReadView::RedisError,
        Some(bytes) => if bytes.len() == 0 {
            ReadView::Miss
        } else {
            match decode_stored(encryption_key, bytes) {
                Some(p) => ReadView::Hit(
                    p,
                    Some(
                        match ttl_reply {
                            Some(t) => t,
                            None => 0,
                        },
                    ),
                ),
                None => ReadView::DecryptFailed,
            }
        },
    }
}

/// Whether the entry's remaining TTL is asked for after this `GET` reply:
/// only when the reply holds a non-empty value.
pub fn needs_remaining_ttl(get_reply: &Result<Vec<u8>, ()>) -> (b: bool)
    ensures
        b == (get_reply matches Ok(v) && v@.len() > 0),
{
    match get_reply {
        Ok(v) => v.len() > 0,
        Err(_) => false,
    }
}

/// What a read yields, from the `GET` reply and the `TTL` reply.
pub fn read_outcome(
    encryption_key: &Option<String>,
    get_reply: Result<Vec<u8>, ()>,
    ttl_reply: Result<i64, ()>,
) -> (r: ReadOutcome)
    ensures
        r@ == read_result(
            *encryption_key,
            match get_reply {
                Ok(v) => Some(v@),
                Err(_) => None,
            },
            match ttl_reply {
                Ok(t) => Some(t),
                Err(_) => None,
            },
        ),
{
    let bytes = match get_reply {
        Ok(bytes) => bytes,
        Err(_) => return ReadOutcome::RedisError,
    };
    if bytes.len() == 0 {
        return ReadOutcome::Miss;
    }
    let remaining_ttl = match ttl_reply {
        Ok(t) => t,
        Err(_) => 0,
    };
    match encryption_key {
        Some(secret) => match decrypt(secret.as_str(), bytes.as_slice()) {
            Some(payload) => ReadOutcome::Hit { payload, remaining_ttl: Some(remaining_ttl) },
            None => ReadOutcome::DecryptFailed,
        },
        None => ReadOutcome::Hit { payload: bytes, remaining_ttl: Some(remaining_ttl) },
    }
}

/// What a store writes: an oversized or empty payload nothing; without a
/// secret, a payload within the limit exactly its own bytes; with a secret
/// and a drawn nonce, a payload within the limits something, namely the
/// nonce followed by a ciphertext 16 bytes longer than the payload.
pub proof fn stores_write_what_fits(
    plan: SetPlan,
    encryption_key: Option<String>,
    key: ResultCacheKey,
    payload: Seq<u8>,
    nonce: Option<Seq<u8>>,
)
    requires
        plan.is_store_of(encryption_key, key, payload, nonce),
        nonce matches Some(n) ==> n.len() == NONCE_LEN,
    ensures
        payload.len() > key.max_entry_bytes ==> plan is Skip,
        payload.len() == 0 ==> plan is Skip,
        (encryption_key is None && 0 < payload.len() <= key.max_entry_bytes) ==> plan.written()
            == Some(payload),
        (encryption_key is Some && nonce is Some && 0 < payload.len() <= key.max_entry_bytes
            && payload.len() <= PLAINTEXT_MAX) ==> (plan.written() matches Some(v) && v.len()
            == NONCE_LEN + payload.len() + TAG_LEN && v.subrange(0, NONCE_LEN as int) == nonce->0),
        (encryption_key is Some && nonce is None) ==> plan is Skip,
        (plan.written() is Some && key.ttl == Some(0u64)) ==> plan is Store,
        (plan.written() is Some && key.ttl is None) ==> plan is Store,
{
    if encryption_key is Some && nonce is Some && 0 < payload.len() <= key.max_entry_bytes
        && payload.len() <= PLAINTEXT_MAX {
        let v = plan.written()->0;
        let n = nonce->0;
        let s = encryption_key->0;
        let ct = aes256gcm_encrypt_of(s@, n, payload);
        assert(v =~= n + ct);
        assert(v.subrange(0, NONCE_LEN as int) =~= n);
    }
}

/// The ciphertext part of a sealed blob.
spec fn aes256gcm_encrypt_of(secret: Seq<char>, nonce: Seq<u8>, payload: Seq<u8>) -> Seq<u8> {
    crate::crypto::aes256gcm_encrypt(crate::crypto::cipher_key(secret), nonce, payload)->0
}

/// What reads yield: a failed `GET` is a Redis error, an empty value a
/// miss; without a secret a stored value is served as it is, with the TTL
/// Redis reported (0 when that query failed); with a secret, a value too
/// short to hold a nonce and a tag is a decryption failure.
pub proof fn read_results(encryption_key: Option<String>, bytes: Seq<u8>, ttl_reply: Option<i64>)
    ensures
        read_result(encryption_key, None, ttl_reply) == ReadView::RedisError,
        read_result(encryption_key, Some(Seq::<u8>::empty()), ttl_reply) == ReadView::Miss,
        (encryption_key is None && bytes.len() > 0 && ttl_reply matches Some(t)) ==> read_result(
            encryption_key,
            Some(bytes),
            ttl_reply,
        ) == ReadView::Hit(bytes, Some(ttl_reply->0)),
        (encryption_key is None && bytes.len() > 0) ==> read_result(
            encryption_key,
            Some(bytes),
            None,
        ) == ReadView::Hit(bytes, Some(0)),
        (encryption_key is Some && 0 < bytes.len() < NONCE_LEN + TAG_LEN) ==> read_result(
            encryption_key,
            Some(bytes),
            ttl_reply,
        ) == ReadView::DecryptFailed,
{
}

/// A value a store writes reads back as the payload it was made from.
pub proof fn read_after_write(
    encryption_key: Option<String>,
    key: ResultCacheKey,
    payload: Seq<u8>,
    nonce: Option<Seq<u8>>,
    plan: SetPlan,
    ttl_reply: Option<i64>,
)
    requires
        plan.is_store_of(encryption_key, key, payload, nonce),
        plan.written() is Some,
    ensures
        read_result(encryption_key, plan.written(), ttl_reply) == ReadView::Hit(
            payload,
            Some(
                match ttl_reply {
                    Some(t) => t,
                    None => 0,
                },
            ),
        ),
{
}

/// How a hit changes the entry's expiration.
#[derive(Clone, Copy, Debug, PartialEq, Eq)]
pub enum TtlAction {
    /// The expiration stays as it is.
    Keep,
    /// `EXPIRE key seconds`; `extended` tells whether this is an adaptive
    /// extension (counted as such).
    Expire { seconds: i64, extended: bool },
}

/// The expiration change after a hit, for a key with base TTL `key_ttl`
/// whose remaining TTL Redis reported as `current_rem_ttl` (negative when
/// the key has no expiration or is gone).
///
/// Adaptive TTL: a remaining TTL strictly between 0 and the cap is extended
/// by the base TTL, up to the cap; a remaining TTL of 0 or less is reset to
/// the base TTL; one at or above the cap is kept. Without adaptive TTL the
/// entry is refreshed to its base TTL (sliding expiration). Keys without a
/// base TTL are kept.
pub open spec fn ttl_action_for(
    adaptive: bool,
    max_expire_seconds: u64,
    key_ttl: Option<u64>,
    current_rem_ttl: i64,
) -> TtlAction {
    match key_ttl {
        None => TtlAction::Keep,
        Some(base) => {
            let base_secs = base as i64;
            let max_secs = max_expire_seconds as i64;
            if !adaptive {
                TtlAction::Expire { seconds: base_secs, extended: false }
            } else if current_rem_ttl > 0 && current_rem_ttl < max_secs {
                let sum = current_rem_ttl + base_secs;
                TtlAction::Expire {
                    seconds: if sum < max_secs {
                        sum as i64
                    } else {
                        max_secs
                    },
                    extended: true,
                }
            } else if current_rem_ttl <= 0 {
                TtlAction::Expire { seconds: base_secs, extended: false }
            } else {
                TtlAction::Keep
            }
        },
    }
}

/// Decides the expiration change after a hit (see [`ttl_action_for`]).
pub fn extend_ttl_action(
    adaptive: bool,
    max_expire_seconds: u64,
    key_ttl: Option<u64>,
    current_rem_ttl: i64,
) -> (a: TtlAction)
    ensures
        a == ttl_action_for(adaptive, max_expire_seconds, key_ttl, current_rem_ttl),
{
    match key_ttl {
        None => TtlAction::Keep,
        Some(base) => {
            let base_secs = base as i64;
            let max_secs = max_expire_seconds as i64;
            if !adaptive {
                TtlAction::Expire { seconds: base_secs, extended: false }
            } else if current_rem_ttl > 0 && current_rem_ttl < max_secs {
                let room = max_secs - current_rem_ttl;
                let seconds = if base_secs < room {
                    current_rem_ttl + base_secs
                } else {
                    max_secs
                };
                TtlAction::Expire { seconds, extended: true }
            } else if current_rem_ttl <= 0 {
                TtlAction::Expire { seconds: base_secs, extended: false }
            } else {
                TtlAction::Keep
            }
        },
    }
}

/// Adaptive TTL never sets an expiration above the cap, and an extension
/// keeps the entry alive longer than it had left when the base TTL is
/// positive.
pub proof fn adaptive_ttl_is_capped(
    max_expire_seconds: u64,
    base: u64,
    current_rem_ttl: i64,
)
    requires
        max_expire_seconds <= i64::MAX,
        base <= i64::MAX,
    ensures
        ttl_action_for(true, max_expire_seconds, Some(base), current_rem_ttl) matches TtlAction::Expire {
            seconds,
            extended,
        } ==> {
            &&& seconds <= max_expire_seconds || seconds == base
            &&& extended ==> seconds <= max_expire_seconds
            &&& (extended && base > 0) ==> seconds > current_rem_ttl
            &&& extended ==> seconds >= current_rem_ttl
        },
{
    assert(max_expire_seconds as i64 == max_expire_seconds);
    assert(base as i64 == base);
}

/// On a hit with adaptive TTL, a remaining TTL strictly between 0 and the
/// cap grows by exactly the base TTL, stopping at the cap: the new
/// expiration is `min(remaining + base, cap)`. Without adaptive TTL the
/// expiration goes back to the base TTL whatever remains.
pub proof fn adaptive_ttl_adds_the_base_ttl(
    max_expire_seconds: u64,
    base: u64,
    current_rem_ttl: i64,
)
    requires
        max_expire_seconds <= i64::MAX,
        base <= i64::MAX,
    ensures
        0 < current_rem_ttl < max_expire_seconds && current_rem_ttl + base <= max_expire_seconds
            ==> ttl_action_for(true, max_expire_seconds, Some(base), current_rem_ttl)
            == (TtlAction::Expire { seconds: (current_rem_ttl + base) as i64, extended: true }),
        0 < current_rem_ttl < max_expire_seconds && current_rem_ttl + base > max_expire_seconds
            ==> ttl_action_for(true, max_expire_seconds, Some(base), current_rem_ttl)
            == (TtlAction::Expire { seconds: max_expire_seconds as i64, extended: true }),
        current_rem_ttl <= 0 ==> ttl_action_for(true, max_expire_seconds, Some(base), current_rem_ttl)
            == (TtlAction::Expire { seconds: base as i64, extended: false }),
        (current_rem_ttl > 0 && current_rem_ttl >= max_expire_seconds) ==> ttl_action_for(
            true,
            max_expire_seconds,
            Some(base),
            current_rem_ttl,
        ) == TtlAction::Keep,
        ttl_action_for(false, max_expire_seconds, Some(base), current_rem_ttl)
            == (TtlAction::Expire { seconds: base as i64, extended: false }),
{
    assert(max_expire_seconds as i64 == max_expire_seconds);
    assert(base as i64 == base);
}

/// TTL of the tag sets, in seconds: twice the entry's TTL (30 s when it has
/// none), and at least 60.
pub open spec fn tag_ttl(key_ttl: Option<u64>) -> u64 {
    let ttl = match key_ttl {
        Some(t) => t,
        None => 30,
    };
    let doubled: u64 = if ttl <= u64::MAX / 2 {
        (2 * ttl) as u64
    } else {
        u64::MAX
    };
    if doubled < 60 {
        60
    } else {
        doubled
    }
}

/// Computes [`tag_ttl`].
pub fn tag_ttl_seconds(key_ttl: Option<u64>) -> (s: u64)
    ensures
        s == tag_ttl(key_ttl),
{
    let ttl = match key_ttl {
        Some(t) => t,
        None => 30,
    };
    let doubled = if ttl <= u64::MAX / 2 {
        2 * ttl
    } else {
        u64::MAX
    };
    if doubled < 60 {
        60
    } else {
        doubled
    }
}

/// Tag sets live at least a minute, and at least twice as long as the
/// entries they tag.
pub proof fn tag_sets_outlive_entries(key_ttl: Option<u64>)
    ensures
        tag_ttl(key_ttl) >= 60,
        key_ttl matches Some(t) ==> tag_ttl(key_ttl) >= t,
        key_ttl matches Some(t) ==> (2 * t <= u64::MAX ==> tag_ttl(key_ttl) >= 2 * t),
        key_ttl matches Some(t) ==> (2 * t <= u64::MAX && 2 * t >= 60 ==> tag_ttl(key_ttl) == 2
            * t),
        key_ttl matches Some(t) ==> (2 * t < 60 ==> tag_ttl(key_ttl) == 60),
        key_ttl matches Some(t) ==> (2 * t > u64::MAX ==> tag_ttl(key_ttl) == u64::MAX),
        key_ttl is None ==> tag_ttl(key_ttl) == 60,
{
}

/// The tag set keys of the tables, in order.
pub fn invalidation_tag_keys(prefix: &str, db: &str, tables: &Vec<OwnedTable>) -> (keys: Vec<
    String,
>)
    ensures
        keys@.len() == tables@.len(),
        forall|i: int|
            0 <= i < tables@.len() ==> #[trigger] keys@[i]@ == tag_text(prefix@, db@, tables@[i]),
{
    let mut keys: Vec<String> = Vec::new();
    let n = tables.len();
    let mut i: usize = 0;
    while i < n
        invariant
            n == tables@.len(),
            i <= n,
            keys@.len() == i,
            forall|j: int|
                0 <= j < i ==> #[trigger] keys@[j]@ == tag_text(prefix@, db@, tables@[j]),
        decreases n - i,
    {
        keys.push(tag_set_key(prefix, db, &tables[i]));
        i = i + 1;
    }
    keys
}

/// What invalidating one tag set does after its `SMEMBERS` reply.
#[derive(Debug)]
pub enum TagInvalidation {
    /// `DEL` each of these keys, in order: the tagged entries, then the tag
    /// set itself.
    Delete { keys: Vec<String> },
    /// The members could not be read: count a Redis error and go on with
    /// the next tag set.
    Failed,
}

/// The invalidation of the tag set `set_key` given its `SMEMBERS` reply.
pub fn invalidation_step(set_key: String, members: Result<Vec<String>, ()>) -> (r: TagInvalidation)
    ensures
        members is Err ==> r is Failed,
        members matches Ok(m) ==> (r matches TagInvalidation::Delete { keys } && keys@ == m@.push(
            set_key,
        )),
{
    match members {
        Ok(m) => {
            let mut keys = m;
            keys.push(set_key);
            TagInvalidation::Delete { keys }
        },
        Err(_) => TagInvalidation::Failed,
    }
}

/// The tag writes of a store: each tag set gets the entry's key (`SADD`)
/// and an expiration (`EXPIRE`).
#[derive(Debug)]
pub struct TagWrite {
    pub tag_keys: Vec<String>,
    pub ttl_seconds: u64,
}

/// What a store with table tags does: nothing at all when a table is
/// filtered out; otherwise the store of the payload (encrypted with `nonce`
/// when a secret is set, see [`set_plan`]), then, unless the payload is
/// empty, the tag writes for every table.
pub fn tagged_set_plan(
    cfg: &ResultCacheConfig,
    db: &str,
    key: &ResultCacheKey,
    payload: &[u8],
    tables: &Vec<OwnedTable>,
    nonce: &Option<Vec<u8>>,
) -> (r: Option<(SetPlan, Option<TagWrite>)>)
    requires
        nonce matches Some(n) ==> n@.len() == NONCE_LEN,
    ensures
        r is Some <==> (forall|i: int|
            0 <= i < tables@.len() ==> cfg.allows(
                #[trigger] tables@[i].schema_text(),
                tables@[i].name@,
            )),
        r matches Some((plan, tags)) ==> {
            &&& plan.is_store_of(cfg.encryption_key, *key, payload@, opt_bytes(*nonce))
            &&& (tags is None <==> payload@.len() == 0)
            &&& tags matches Some(t) ==> {
                &&& t.ttl_seconds == tag_ttl(key.ttl)
                &&& t.tag_keys@.len() == tables@.len()
                &&& forall|i: int|
                    0 <= i < tables@.len() ==> #[trigger] t.tag_keys@[i]@ == tag_text(
                        cfg.key_prefix@,
                        db@,
                        tables@[i],
                    )
            }
        },
{
    if !crate::keys::all_tables_allowed(cfg, tables) {
        return None;
    }
    let plan = set_plan(&cfg.encryption_key, key, payload, nonce);
    if payload.len() == 0 {
        return Some((plan, None));
    }
    let tag_keys = invalidation_tag_keys(cfg.key_prefix.as_str(), db, tables);
    Some((plan, Some(TagWrite { tag_keys, ttl_seconds: tag_ttl_seconds(key.ttl) })))
}

/// Whether the open Redis connection can be reused for `cfg`: it exists,
/// was opened to the same URL, and uses the same key prefix.
pub fn connection_current(
    current_url: &Option<String>,
    has_connection: bool,
    current_prefix: &String,
    cfg: &ResultCacheConfig,
) -> (b: bool)
    ensures
        b == ((current_url matches Some(u) && u@ == cfg.redis_url@) && has_connection
            && current_prefix@ == cfg.key_prefix@),
{
    let same_url = match current_url {
        Some(u) => *u == cfg.redis_url,
        None => false,
    };
    same_url && has_connection && *current_prefix == cfg.key_prefix
}

/// Whether the `SET lock 1 NX PX ttl` reply means the lock was taken: only
/// a successful reply holding a value does.
pub fn lock_acquired(reply: &Result<Option<String>, ()>) -> (b: bool)
    ensures
        b == (reply matches Ok(Some(_))),
{
    match reply {
        Ok(Some(_)) => true,
        _ => false,
    }
}

/// Whether a cross-node waiter polls again: only while less than the
/// timeout has elapsed.
pub fn keep_waiting(elapsed_ms: u128, timeout_ms: u128) -> (b: bool)
    ensures
        b == (elapsed_ms < timeout_ms),
{
    elapsed_ms < timeout_ms
}

} // verus!
