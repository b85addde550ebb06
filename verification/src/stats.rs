//! Result cache counters and their export as metrics.

use vstd::prelude::*;

verus! {

/// Counters of the result cache. Like atomic counters, they wrap around on
/// overflow.
#[derive(Clone, Copy, Debug, Default, PartialEq, Eq)]
pub struct ResultCache {
    pub hits: u64,
    pub misses: u64,
    pub stores: u64,
    pub bytes_served: u64,
    pub bytes_stored: u64,
    pub redis_errors: u64,
    pub singleflight_joined: u64,
    pub singleflight_timeouts: u64,
    pub ttl_extended: u64,
    pub xfetch_triggers: u64,
    pub distributed_singleflight_joined: u64,
    pub read_after_write_bypasses: u64,
}

/// One exported metric.
#[derive(Clone, Debug, PartialEq, Eq)]
pub struct ResultCacheMetric {
    name: String,
    help: String,
    value: u64,
    gauge: bool,
}

/// A metric as values: name, help text, value, and whether it is a gauge.
pub ghost struct MetricView {
    pub name: Seq<char>,
    pub help: Seq<char>,
    pub value: u64,
    pub gauge: bool,
}

impl ResultCacheMetric {
    pub closed spec fn view(&self) -> MetricView {
        MetricView { name: self.name@, help: self.help@, value: self.value, gauge: self.gauge }
    }

    /// The metric's name.
    pub fn name(&self) -> (s: String)
        ensures
            s@ == self@.name,
    {
        self.name.clone()
    }

    /// `gauge` or `counter`.
    pub fn metric_type(&self) -> (s: String)
        ensures
            s@ == (if self@.gauge {
                "gauge"@
            } else {
                "counter"@
            }),
    {
        if self.gauge {
            String::from_str("gauge")
        } else {
            String::from_str("counter")
        }
    }

    /// The metric's help text.
    pub fn help(&self) -> (s: Option<String>)
        ensures
            s matches Some(h) && h@ == self@.help,
    {
        Some(self.help.clone())
    }

    /// The measurements: one, the value as a signed integer, with no labels.
    pub fn measurements(&self) -> (m: Vec<i64>)
        ensures
            m@ == seq![self@.value as i64],
    {
        let mut m: Vec<i64> = Vec::new();
        m.push(self.value as i64);
        m
    }
}

/// Builds a counter metric.
fn counter(name: &str, help: &str, value: u64) -> (m: ResultCacheMetric)
    ensures
        m@ == (MetricView { name: name@, help: help@, value, gauge: false }),
{
    ResultCacheMetric {
        name: String::from_str(name),
        help: String::from_str(help),
        value,
        gauge: false,
    }
}

/// The metrics of the counters, in export order.
pub open spec fn metric_table(c: ResultCache) -> Seq<MetricView> {
    seq![
        MetricView { name: "result_cache_hits"@, help: "Result cache hits (cached SELECT results served)"@, value: c.hits, gauge: false },
        MetricView { name: "result_cache_misses"@, help: "Result cache misses (cacheable SELECT not found)"@, value: c.misses, gauge: false },
        MetricView { name: "result_cache_stores"@, help: "Result cache stores (cache entries written)"@, value: c.stores, gauge: false },
        MetricView { name: "result_cache_bytes_served"@, help: "Bytes served from result cache"@, value: c.bytes_served, gauge: false },
        MetricView { name: "result_cache_bytes_stored"@, help: "Bytes stored into result cache"@, value: c.bytes_stored, gauge: false },
        MetricView { name: "result_cache_redis_errors"@, help: "Redis errors encountered by result cache"@, value: c.redis_errors, gauge: false },
        MetricView { name: "result_cache_singleflight_joined"@, help: "Singleflight joined count (follower requests coalesced)"@, value: c.singleflight_joined, gauge: false },
        MetricView { name: "result_cache_singleflight_timeouts"@, help: "Singleflight waiter timeouts"@, value: c.singleflight_timeouts, gauge: false },
        MetricView { name: "result_cache_ttl_extended"@, help: "Adaptive TTL extensions performed"@, value: c.ttl_extended, gauge: false },
        MetricView { name: "result_cache_xfetch_triggers"@, help: "XFetch probabilistic early background refreshes triggered"@, value: c.xfetch_triggers, gauge: false },
        MetricView { name: "result_cache_distributed_singleflight_joined"@, help: "Distributed cross-node singleflight requests coalesced"@, value: c.distributed_singleflight_joined, gauge: false },
        MetricView { name: "result_cache_read_after_write_bypasses"@, help: "Cache lookups bypassed due to read-after-write session consistency"@, value: c.read_after_write_bypasses, gauge: false },
    ]
}

/// Whether some exported metric has this name and value.
pub open spec fn exports(table: Seq<MetricView>, name: Seq<char>, value: u64) -> bool {
    exists|i: int| 0 <= i < table.len() && #[trigger] table[i].name == name && table[i].value == value
}

/// Each counter is exported under its own name, with its own value, as a
/// counter (not a gauge), and nothing else is exported.
pub proof fn metrics_carry_their_counters(c: ResultCache)
    ensures
        metric_table(c).len() == 12,
        forall|i: int| 0 <= i < metric_table(c).len() ==> !(#[trigger] metric_table(c)[i]).gauge,
        exports(metric_table(c), "result_cache_hits"@, c.hits),
        exports(metric_table(c), "result_cache_misses"@, c.misses),
        exports(metric_table(c), "result_cache_stores"@, c.stores),
        exports(metric_table(c), "result_cache_bytes_served"@, c.bytes_served),
        exports(metric_table(c), "result_cache_bytes_stored"@, c.bytes_stored),
        exports(metric_table(c), "result_cache_redis_errors"@, c.redis_errors),
        exports(metric_table(c), "result_cache_singleflight_joined"@, c.singleflight_joined),
        exports(metric_table(c), "result_cache_singleflight_timeouts"@, c.singleflight_timeouts),
        exports(metric_table(c), "result_cache_ttl_extended"@, c.ttl_extended),
        exports(metric_table(c), "result_cache_xfetch_triggers"@, c.xfetch_triggers),
        exports(
            metric_table(c),
            "result_cache_distributed_singleflight_joined"@,
            c.distributed_singleflight_joined,
        ),
        exports(
            metric_table(c),
            "result_cache_read_after_write_bypasses"@,
            c.read_after_write_bypasses,
        ),
{
    let t = metric_table(c);
    assert(t[0].name == "result_cache_hits"@);
    assert(t[1].name == "result_cache_misses"@);
    assert(t[2].name == "result_cache_stores"@);
    assert(t[3].name == "result_cache_bytes_served"@);
    assert(t[4].name == "result_cache_bytes_stored"@);
    assert(t[5].name == "result_cache_redis_errors"@);
    assert(t[6].name == "result_cache_singleflight_joined"@);
    assert(t[7].name == "result_cache_singleflight_timeouts"@);
    assert(t[8].name == "result_cache_ttl_extended"@);
    assert(t[9].name == "result_cache_xfetch_triggers"@);
    assert(t[10].name == "result_cache_distributed_singleflight_joined"@);
    assert(t[11].name == "result_cache_read_after_write_bypasses"@);
}

impl ResultCache {
    /// All counters at zero.
    pub fn new() -> (c: Self)
        ensures
            c == (ResultCache {
                hits: 0,
                misses: 0,
                stores: 0,
                bytes_served: 0,
                bytes_stored: 0,
                redis_errors: 0,
                singleflight_joined: 0,
                singleflight_timeouts: 0,
                ttl_extended: 0,
                xfetch_triggers: 0,
                distributed_singleflight_joined: 0,
                read_after_write_bypasses: 0,
            }),
    {
        ResultCache {
            hits: 0,
            misses: 0,
            stores: 0,
            bytes_served: 0,
            bytes_stored: 0,
            redis_errors: 0,
            singleflight_joined: 0,
            singleflight_timeouts: 0,
            ttl_extended: 0,
            xfetch_triggers: 0,
            distributed_singleflight_joined: 0,
            read_after_write_bypasses: 0,
        }
    }

    /// A cached payload of `bytes` bytes was served.
    pub fn hit(&mut self, bytes: usize)
        ensures
            *final(self) == (ResultCache {
                hits: old(self).hits.wrapping_add(1),
                bytes_served: old(self).bytes_served.wrapping_add(bytes as u64),
                ..*old(self)
            }),
    {
        self.hits = self.hits.wrapping_add(1);
        self.bytes_served = self.bytes_served.wrapping_add(bytes as u64);
    }

    /// A cacheable read was not found.
    pub fn miss(&mut self)
        ensures
            *final(self) == (ResultCache { misses: old(self).misses.wrapping_add(1), ..*old(self) }),
    {
        self.misses = self.misses.wrapping_add(1);
    }

    /// An entry of `bytes` bytes was written.
    pub fn store(&mut self, bytes: usize)
        ensures
            *final(self) == (ResultCache {
                stores: old(self).stores.wrapping_add(1),
                bytes_stored: old(self).bytes_stored.wrapping_add(bytes as u64),
                ..*old(self)
            }),
    {
        self.stores = self.stores.wrapping_add(1);
        self.bytes_stored = self.bytes_stored.wrapping_add(bytes as u64);
    }

    /// A Redis command failed.
    pub fn redis_error(&mut self)
        ensures
            *final(self) == (ResultCache {
                redis_errors: old(self).redis_errors.wrapping_add(1),
                ..*old(self)
            }),
    {
        self.redis_errors = self.redis_errors.wrapping_add(1);
    }

    /// An in-process follower got its leader's payload of `bytes` bytes;
    /// this is also a hit.
    pub fn singleflight_joined(&mut self, bytes: usize)
        ensures
            *final(self) == (ResultCache {
                singleflight_joined: old(self).singleflight_joined.wrapping_add(1),
                hits: old(self).hits.wrapping_add(1),
                bytes_served: old(self).bytes_served.wrapping_add(bytes as u64),
                ..*old(self)
            }),
    {
        self.singleflight_joined = self.singleflight_joined.wrapping_add(1);
        self.hits = self.hits.wrapping_add(1);
        self.bytes_served = self.bytes_served.wrapping_add(bytes as u64);
    }

    /// An in-process follower gave up waiting.
    pub fn singleflight_timeout(&mut self)
        ensures
            *final(self) == (ResultCache {
                singleflight_timeouts: old(self).singleflight_timeouts.wrapping_add(1),
                ..*old(self)
            }),
    {
        self.singleflight_timeouts = self.singleflight_timeouts.wrapping_add(1);
    }

    /// An adaptive TTL extension was made.
    pub fn ttl_extended(&mut self)
        ensures
            *final(self) == (ResultCache {
                ttl_extended: old(self).ttl_extended.wrapping_add(1),
                ..*old(self)
            }),
    {
        self.ttl_extended = self.ttl_extended.wrapping_add(1);
    }

    /// The XFetch early-refresh condition held on a hit.
    pub fn xfetch_trigger(&mut self)
        ensures
            *final(self) == (ResultCache {
                xfetch_triggers: old(self).xfetch_triggers.wrapping_add(1),
                ..*old(self)
            }),
    {
        self.xfetch_triggers = self.xfetch_triggers.wrapping_add(1);
    }

    /// A cross-node waiter got a payload of `bytes` bytes written by another
    /// node; this is also a hit.
    pub fn distributed_singleflight_joined(&mut self, bytes: usize)
        ensures
            *final(self) == (ResultCache {
                distributed_singleflight_joined: old(
                    self,
                ).distributed_singleflight_joined.wrapping_add(1),
                hits: old(self).hits.wrapping_add(1),
                bytes_served: old(self).bytes_served.wrapping_add(bytes as u64),
                ..*old(self)
            }),
    {
        self.distributed_singleflight_joined = self.distributed_singleflight_joined.wrapping_add(1);
        self.hits = self.hits.wrapping_add(1);
        self.bytes_served = self.bytes_served.wrapping_add(bytes as u64);
    }

    /// A lookup was bypassed for read-after-write consistency.
    pub fn read_after_write_bypass(&mut self)
        ensures
            *final(self) == (ResultCache {
                read_after_write_bypasses: old(self).read_after_write_bypasses.wrapping_add(1),
                ..*old(self)
            }),
    {
        self.read_after_write_bypasses = self.read_after_write_bypasses.wrapping_add(1);
    }

    /// The counters as metrics, all counters, in export order.
    pub fn metrics(&self) -> (m: Vec<ResultCacheMetric>)
        ensures
            m@.len() == metric_table(*self).len(),
            forall|i: int| 0 <= i < m@.len() ==> #[trigger] m@[i]@ == metric_table(*self)[i],
    {
        let mut m: Vec<ResultCacheMetric> = Vec::new();
        m.push(
            counter("result_cache_hits", "Result cache hits (cached SELECT results served)", self.hits),
        );
        m.push(
            counter(
                "result_cache_misses",
                "Result cache misses (cacheable SELECT not found)",
                self.misses,
            ),
        );
        m.push(
            counter("result_cache_stores", "Result cache stores (cache entries written)", self.stores),
        );
        m.push(
            counter("result_cache_bytes_served", "Bytes served from result cache", self.bytes_served),
        );
        m.push(
            counter("result_cache_bytes_stored", "Bytes stored into result cache", self.bytes_stored),
        );
        m.push(
            counter(
                "result_cache_redis_errors",
                "Redis errors encountered by result cache",
                self.redis_errors,
            ),
        );
        m.push(
            counter(
                "result_cache_singleflight_joined",
                "Singleflight joined count (follower requests coalesced)",
                self.singleflight_joined,
            ),
        );
        m.push(
            counter(
                "result_cache_singleflight_timeouts",
                "Singleflight waiter timeouts",
                self.singleflight_timeouts,
            ),
        );
        m.push(
            counter("result_cache_ttl_extended", "Adaptive TTL extensions performed", self.ttl_extended),
        );
        m.push(
            counter(
                "result_cache_xfetch_triggers",
                "XFetch probabilistic early background refreshes triggered",
                self.xfetch_triggers,
            ),
        );
        m.push(
            counter(
                "result_cache_distributed_singleflight_joined",
                "Distributed cross-node singleflight requests coalesced",
                self.distributed_singleflight_joined,
            ),
        );
        m.push(
            counter(
                "result_cache_read_after_write_bypasses",
                "Cache lookups bypassed due to read-after-write session consistency",
                self.read_after_write_bypasses,
            ),
        );
        assert(m@.len() == metric_table(*self).len());
        m
    }
}

} // verus!
