//! Per-shard health and counter tracking for a pool, and the aggregate
//! views the readiness reader consumes.
//!
//! The table is built once, at pool construction, with exactly the
//! pool's shard-ID range as its key set; entries are never inserted or
//! removed afterwards. Counters are monotonically non-decreasing
//! (saturating at the type bound). The aggregate guild count is
//! approximate by design: it is observability data, not an authorization
//! input.

use vstd::prelude::*;

use vstd::pervasive::VecAdditionalExecFns;

use crate::clock::now_unix_millis;
use crate::pool::{shard_range, spec_in_range, SHARDS_PER_POOL};

verus! {

/// Health of one shard.
#[derive(Debug, Clone, Copy, PartialEq, Eq, Structural)]
pub enum ShardHealth {
    /// Connecting or handshaking.
    Connecting,
    /// Ready and receiving events.
    Ready,
    /// Resuming after a disconnect.
    Resuming,
    /// Disconnected; the runner keeps trying.
    Disconnected,
    /// Terminal: the shard's runner has given up.
    Dead,
}

/// Ready or resuming.
pub open spec fn spec_is_healthy(h: ShardHealth) -> bool {
    h == ShardHealth::Ready || h == ShardHealth::Resuming
}

/// Ready to serve.
pub open spec fn spec_is_ready(h: ShardHealth) -> bool {
    h == ShardHealth::Ready
}

impl ShardHealth {
    /// Whether the shard counts as healthy (ready or resuming).
    pub fn is_healthy(&self) -> (r: bool)
        ensures
            r == spec_is_healthy(*self),
    {
        matches!(self, ShardHealth::Ready | ShardHealth::Resuming)
    }

    /// Whether the shard is ready to serve.
    pub fn is_ready(&self) -> (r: bool)
        ensures
            r == spec_is_ready(*self),
    {
        matches!(self, ShardHealth::Ready)
    }
}

/// State of a single shard.
#[derive(Debug, Clone, Copy, PartialEq, Eq)]
pub struct ShardStateEntry {
    /// Current health.
    pub health: ShardHealth,
    /// Guilds this shard serves (approximate; see the module note).
    pub guilds: u64,
    /// Events received from the gateway; never decreases.
    pub events_received: u64,
    /// Events published onto the bus; never decreases.
    pub events_routed: u64,
    /// Failed publish attempts; never decreases.
    pub route_failures: u64,
    /// Last heartbeat acknowledgement, in Unix milliseconds.
    pub last_heartbeat: Option<u64>,
    /// First transition to `Ready`, in Unix milliseconds; set at most once.
    pub connected_at: Option<u64>,
}

impl ShardStateEntry {
    /// The state every shard starts in.
    pub open spec fn spec_initial() -> ShardStateEntry {
        ShardStateEntry {
            health: ShardHealth::Connecting,
            guilds: 0,
            events_received: 0,
            events_routed: 0,
            route_failures: 0,
            last_heartbeat: Option::None,
            connected_at: Option::None,
        }
    }
}

impl Default for ShardStateEntry {
    fn default() -> (r: Self)
        ensures
            r == ShardStateEntry::spec_initial(),
    {
        ShardStateEntry {
            health: ShardHealth::Connecting,
            guilds: 0,
            events_received: 0,
            events_routed: 0,
            route_failures: 0,
            last_heartbeat: Option::None,
            connected_at: Option::None,
        }
    }
}

/// `e` with its health set and the connection time recorded.
pub open spec fn spec_with_connected(e: ShardStateEntry, health: ShardHealth, t: u64) -> ShardStateEntry {
    ShardStateEntry { health, connected_at: Option::Some(t), ..e }
}

/// `e` with a heartbeat time recorded.
pub open spec fn spec_with_heartbeat(e: ShardStateEntry, t: u64) -> ShardStateEntry {
    ShardStateEntry { last_heartbeat: Option::Some(t), ..e }
}

/// `n + 1`, saturating at the type bound; counters never wrap.
pub open spec fn spec_sat_inc(n: u64) -> u64 {
    if n < u64::MAX { (n + 1) as u64 } else { n }
}

/// The table after `set_health(s, h)` at time `t`: health set, and the
/// connection time recorded on the first transition to `Ready`. A key
/// outside the table leaves it unchanged, and `t` matters only on that
/// first transition.
pub open spec fn spec_set_health(
    m: Map<u64, ShardStateEntry>,
    s: u64,
    h: ShardHealth,
    t: u64,
) -> Map<u64, ShardStateEntry> {
    if m.contains_key(s) {
        if h == ShardHealth::Ready && m[s].connected_at is None {
            m.insert(s, spec_with_connected(m[s], h, t))
        } else {
            m.insert(s, ShardStateEntry { health: h, ..m[s] })
        }
    } else {
        m
    }
}

/// The table after `set_guilds(s, g)`.
pub open spec fn spec_set_guilds(
    m: Map<u64, ShardStateEntry>,
    s: u64,
    g: u64,
) -> Map<u64, ShardStateEntry> {
    if m.contains_key(s) {
        m.insert(s, ShardStateEntry { guilds: g, ..m[s] })
    } else {
        m
    }
}

/// The table after `record_event(s)`.
pub open spec fn spec_record_event(
    m: Map<u64, ShardStateEntry>,
    s: u64,
) -> Map<u64, ShardStateEntry> {
    if m.contains_key(s) {
        m.insert(s, ShardStateEntry { events_received: spec_sat_inc(m[s].events_received), ..m[s] })
    } else {
        m
    }
}

/// The table after `record_route(s)`.
pub open spec fn spec_record_route(
    m: Map<u64, ShardStateEntry>,
    s: u64,
) -> Map<u64, ShardStateEntry> {
    if m.contains_key(s) {
        m.insert(s, ShardStateEntry { events_routed: spec_sat_inc(m[s].events_routed), ..m[s] })
    } else {
        m
    }
}

/// The table after `record_route_failure(s)`.
pub open spec fn spec_record_route_failure(
    m: Map<u64, ShardStateEntry>,
    s: u64,
) -> Map<u64, ShardStateEntry> {
    if m.contains_key(s) {
        m.insert(s, ShardStateEntry { route_failures: spec_sat_inc(m[s].route_failures), ..m[s] })
    } else {
        m
    }
}

/// The table after `record_heartbeat(s)` at time `t`.
pub open spec fn spec_record_heartbeat(
    m: Map<u64, ShardStateEntry>,
    s: u64,
    t: u64,
) -> Map<u64, ShardStateEntry> {
    if m.contains_key(s) {
        m.insert(s, spec_with_heartbeat(m[s], t))
    } else {
        m
    }
}

/// The sum of a sequence of counters, as a mathematical integer.
pub open spec fn spec_sum(s: Seq<u64>) -> int
    decreases s.len(),
{
    if s.len() == 0 {
        0
    } else {
        spec_sum(s.drop_last()) + s.last()
    }
}

/// A sum of counters is never negative.
pub proof fn lemma_sum_nonneg(s: Seq<u64>)
    ensures
        spec_sum(s) >= 0,
    decreases s.len(),
{
    if s.len() > 0 {
        lemma_sum_nonneg(s.drop_last());
    }
}

/// A mathematical integer clamped into the `u64` range.
pub open spec fn spec_clamp_u64(n: int) -> u64 {
    if n > u64::MAX { u64::MAX } else if n < 0 { 0 } else { n as u64 }
}

/// The clamped total of per-shard guild counts over an entry sequence.
pub open spec fn spec_guild_total(s: Seq<ShardStateEntry>) -> u64 {
    spec_clamp_u64(spec_sum(s.map_values(|e: ShardStateEntry| e.guilds)))
}

/// How many entries are ready to serve.
pub open spec fn spec_count_ready(s: Seq<ShardStateEntry>) -> int
    decreases s.len(),
{
    if s.len() == 0 {
        0
    } else {
        spec_count_ready(s.drop_last()) + if spec_is_ready(s.last().health) { 1int } else { 0 }
    }
}

/// How many entries are healthy (ready or resuming).
pub open spec fn spec_count_healthy(s: Seq<ShardStateEntry>) -> int
    decreases s.len(),
{
    if s.len() == 0 {
        0
    } else {
        spec_count_healthy(s.drop_last()) + if spec_is_healthy(s.last().health) { 1int } else { 0 }
    }
}

/// Ready entries are healthy entries, and both counts are bounded by the
/// number of entries.
pub proof fn lemma_count_bounds(s: Seq<ShardStateEntry>)
    ensures
        0 <= spec_count_ready(s) <= spec_count_healthy(s) <= s.len(),
    decreases s.len(),
{
    if s.len() > 0 {
        lemma_count_bounds(s.drop_last());
    }
}

/// Shared state of all shards in a pool, keyed by shard ID.
#[derive(Debug, Clone)]
pub struct ShardState {
    /// The pool this table belongs to.
    pub pool_id: u64,
    /// Total shards across all pools.
    pub total_shards: u64,
    /// First shard ID of the pool's range; entry `i` is shard `base + i`.
    pub base: u64,
    /// One entry per shard of the pool's range.
    pub entries: Vec<ShardStateEntry>,
}

impl View for ShardState {
    type V = Map<u64, ShardStateEntry>;

    /// The table as a mapping from shard ID to entry.
    open spec fn view(&self) -> Map<u64, ShardStateEntry> {
        Map::new(
            |s: u64| self.base <= s && (s as int) < self.base as int + self.entries@.len(),
            |s: u64| self.entries@[s as int - self.base as int],
        )
    }
}

impl ShardState {
    /// Structural validity: the table is a pool-sized window of shard IDs.
    pub open spec fn wf(&self) -> bool {
        &&& self.base as int + self.entries@.len() <= u64::MAX
        &&& self.entries@.len() <= SHARDS_PER_POOL
    }

    /// The pool ID this table belongs to.
    pub open spec fn spec_pool_id(&self) -> u64 {
        self.pool_id
    }

    /// The configured total shard count across all pools.
    pub open spec fn spec_total_shards(&self) -> u64 {
        self.total_shards
    }

    /// The entry sequence, base-indexed (shard `base + i` is entry `i`).
    pub open spec fn spec_entries(&self) -> Seq<ShardStateEntry> {
        self.entries@
    }

    /// Counters never decrease between two table states.
    pub open spec fn spec_counters_le(
        a: Map<u64, ShardStateEntry>,
        b: Map<u64, ShardStateEntry>,
    ) -> bool {
        forall|s: u64|
            a.contains_key(s) && b.contains_key(s) ==> {
                &&& (#[trigger] a[s]).events_received <= b[s].events_received
                &&& a[s].events_routed <= b[s].events_routed
                &&& a[s].route_failures <= b[s].route_failures
            }
    }

    /// Create the table for pool `pool_id`, seeded with exactly the
    /// shard IDs of the pool's range, every shard starting in
    /// `Connecting` with zeroed counters.
    pub fn new(pool_id: u64, total_shards: u64) -> (r: ShardState)
        requires
            total_shards <= u32::MAX,
        ensures
            r.wf(),
            r.spec_pool_id() == pool_id,
            r.spec_total_shards() == total_shards,
            forall|s: u64| r@.contains_key(s) <==> spec_in_range(pool_id, total_shards, s),
            forall|s: u64| r@.contains_key(s) ==> r@[s] == ShardStateEntry::spec_initial(),
    {
        let (start, end) = shard_range(pool_id, total_shards);
        let width = end - start;
        let mut entries: Vec<ShardStateEntry> = Vec::new();
        let mut i: u64 = 0;
        while i < width
            invariant
                i <= width <= SHARDS_PER_POOL,
                entries@.len() == i,
                forall|j: int|
                    0 <= j < i ==> entries@[j] == ShardStateEntry::spec_initial(),
            decreases width - i,
        {
            entries.push(ShardStateEntry::default());
            i += 1;
        }
        let r = ShardState { pool_id, total_shards, base: start, entries };
        proof {
            assert forall|s: u64|
                r@.contains_key(s) <==> spec_in_range(pool_id, total_shards, s) by {
            }
        }
        r
    }

    /// The pool ID.
    pub fn pool_id(&self) -> (r: u64)
        ensures
            r == self.spec_pool_id(),
    {
        self.pool_id
    }

    /// The total shard count across all pools.
    pub fn total_shards(&self) -> (r: u64)
        ensures
            r == self.spec_total_shards(),
    {
        self.total_shards
    }

    fn index_of(&self, shard_id: u64) -> (r: Option<usize>)
        requires
            self.wf(),
        ensures
            r is Some <==> self@.contains_key(shard_id),
            r matches Some(i) ==> {
                &&& i < self.spec_entries().len()
                &&& i == shard_id - self.base
                &&& self@[shard_id] == self.spec_entries()[i as int]
            },
    {
        if shard_id >= self.base && shard_id - self.base < self.entries.len() as u64 {
            Option::Some((shard_id - self.base) as usize)
        } else {
            Option::None
        }
    }

    proof fn lemma_view_update(pre: ShardState, post: ShardState, shard_id: u64)
        requires
            pre.wf(),
            post.base == pre.base,
            post.entries@.len() == pre.entries@.len(),
            pre@.contains_key(shard_id),
            post.entries@ == pre.entries@.update(
                shard_id as int - pre.base as int,
                post.entries@[shard_id as int - pre.base as int],
            ),
        ensures
            post@ == pre@.insert(shard_id, post.entries@[shard_id as int - pre.base as int]),
    {
        assert(post@ =~= pre@.insert(
            shard_id,
            post.entries@[shard_id as int - pre.base as int],
        ));
    }

    /// Set a shard's health. The first transition to `Ready` also
    /// records the connection time, once; a shard ID outside the pool's
    /// range leaves the table unchanged.
    pub fn set_health(&mut self, shard_id: u64, health: ShardHealth)
        requires
            old(self).wf(),
        ensures
            final(self).wf(),
            final(self).spec_pool_id() == old(self).spec_pool_id(),
            final(self).spec_total_shards() == old(self).spec_total_shards(),
            final(self)@.dom() == old(self)@.dom(),
            final(self).base == old(self).base,
            final(self).spec_entries().len() == old(self).spec_entries().len(),
            exists|t: u64|
                final(self)@ == #[trigger] spec_set_health(old(self)@, shard_id, health, t),
            ShardState::spec_counters_le(old(self)@, final(self)@),
    {
        let idx = self.index_of(shard_id);
        match idx {
            Option::Some(i) => {
                let mut e = self.entries[i];
                e.health = health;
                let record_time = matches!(health, ShardHealth::Ready) && e.connected_at.is_none();
                let mut stamp: u64 = 0;
                if record_time {
                    stamp = now_unix_millis();
                    e.connected_at = Option::Some(stamp);
                }
                let ghost pre = *self;
                self.entries.set(i, e);
                proof {
                    Self::lemma_view_update(pre, *self, shard_id);
                    if record_time {
                        assert(e == spec_with_connected(old(self)@[shard_id], health, stamp));
                    }
                    assert(self@ == spec_set_health(old(self)@, shard_id, health, stamp));
                }
            },
            Option::None => {
                proof {
                    assert(self@ =~= old(self)@);
                    assert(self@ == spec_set_health(old(self)@, shard_id, health, 0));
                }
            },
        }
    }

    /// Set a shard's guild count; a shard ID outside the pool's range
    /// leaves the table unchanged.
    pub fn set_guilds(&mut self, shard_id: u64, count: u64)
        requires
            old(self).wf(),
        ensures
            final(self).wf(),
            final(self).spec_pool_id() == old(self).spec_pool_id(),
            final(self).spec_total_shards() == old(self).spec_total_shards(),
            final(self)@.dom() == old(self)@.dom(),
            final(self).base == old(self).base,
            final(self).spec_entries().len() == old(self).spec_entries().len(),
            final(self)@ == spec_set_guilds(old(self)@, shard_id, count),
            ShardState::spec_counters_le(old(self)@, final(self)@),
    {
        let idx = self.index_of(shard_id);
        match idx {
            Option::Some(i) => {
                let mut e = self.entries[i];
                e.guilds = count;
                let ghost pre = *self;
                self.entries.set(i, e);
                proof {
                    Self::lemma_view_update(pre, *self, shard_id);
                }
            },
            Option::None => {
                proof {
                    assert(self@ =~= old(self)@);
                }
            },
        }
    }

    /// Count one received event on a shard; the counter never decreases.
    pub fn record_event(&mut self, shard_id: u64)
        requires
            old(self).wf(),
        ensures
            final(self).wf(),
            final(self).spec_pool_id() == old(self).spec_pool_id(),
            final(self).spec_total_shards() == old(self).spec_total_shards(),
            final(self)@.dom() == old(self)@.dom(),
            final(self).base == old(self).base,
            final(self).spec_entries().len() == old(self).spec_entries().len(),
            final(self)@ == spec_record_event(old(self)@, shard_id),
            final(self).spec_entries().map_values(|e: ShardStateEntry| e.guilds) == old(
                self,
            ).spec_entries().map_values(|e: ShardStateEntry| e.guilds),
            ShardState::spec_counters_le(old(self)@, final(self)@),
    {
        let idx = self.index_of(shard_id);
        match idx {
            Option::Some(i) => {
                let mut e = self.entries[i];
                if e.events_received < u64::MAX {
                    e.events_received = e.events_received + 1;
                }
                let ghost pre = *self;
                self.entries.set(i, e);
                proof {
                    Self::lemma_view_update(pre, *self, shard_id);
                    assert(self.entries@.map_values(|en: ShardStateEntry| en.guilds)
                        =~= pre.entries@.map_values(|en: ShardStateEntry| en.guilds));
                }
            },
            Option::None => {
                proof {
                    assert(self@ =~= old(self)@);
                }
            },
        }
    }

    /// Count one successfully routed event on a shard; the counter never
    /// decreases.
    pub fn record_route(&mut self, shard_id: u64)
        requires
            old(self).wf(),
        ensures
            final(self).wf(),
            final(self).spec_pool_id() == old(self).spec_pool_id(),
            final(self).spec_total_shards() == old(self).spec_total_shards(),
            final(self)@.dom() == old(self)@.dom(),
            final(self).base == old(self).base,
            final(self).spec_entries().len() == old(self).spec_entries().len(),
            final(self)@ == spec_record_route(old(self)@, shard_id),
            final(self).spec_entries().map_values(|e: ShardStateEntry| e.guilds) == old(
                self,
            ).spec_entries().map_values(|e: ShardStateEntry| e.guilds),
            ShardState::spec_counters_le(old(self)@, final(self)@),
    {
        let idx = self.index_of(shard_id);
        match idx {
            Option::Some(i) => {
                let mut e = self.entries[i];
                if e.events_routed < u64::MAX {
                    e.events_routed = e.events_routed + 1;
                }
                let ghost pre = *self;
                self.entries.set(i, e);
                proof {
                    Self::lemma_view_update(pre, *self, shard_id);
                    assert(self.entries@.map_values(|en: ShardStateEntry| en.guilds)
                        =~= pre.entries@.map_values(|en: ShardStateEntry| en.guilds));
                }
            },
            Option::None => {
                proof {
                    assert(self@ =~= old(self)@);
                }
            },
        }
    }

    /// Count one failed route on a shard; the counter never decreases.
    pub fn record_route_failure(&mut self, shard_id: u64)
        requires
            old(self).wf(),
        ensures
            final(self).wf(),
            final(self).spec_pool_id() == old(self).spec_pool_id(),
            final(self).spec_total_shards() == old(self).spec_total_shards(),
            final(self)@.dom() == old(self)@.dom(),
            final(self).base == old(self).base,
            final(self).spec_entries().len() == old(self).spec_entries().len(),
            final(self)@ == spec_record_route_failure(old(self)@, shard_id),
            final(self).spec_entries().map_values(|e: ShardStateEntry| e.guilds) == old(
                self,
            ).spec_entries().map_values(|e: ShardStateEntry| e.guilds),
            ShardState::spec_counters_le(old(self)@, final(self)@),
    {
        let idx = self.index_of(shard_id);
        match idx {
            Option::Some(i) => {
                let mut e = self.entries[i];
                if e.route_failures < u64::MAX {
                    e.route_failures = e.route_failures + 1;
                }
                let ghost pre = *self;
                self.entries.set(i, e);
                proof {
                    Self::lemma_view_update(pre, *self, shard_id);
                    assert(self.entries@.map_values(|en: ShardStateEntry| en.guilds)
                        =~= pre.entries@.map_values(|en: ShardStateEntry| en.guilds));
                }
            },
            Option::None => {
                proof {
                    assert(self@ =~= old(self)@);
                }
            },
        }
    }

    /// Record a heartbeat acknowledgement time on a shard.
    pub fn record_heartbeat(&mut self, shard_id: u64)
        requires
            old(self).wf(),
        ensures
            final(self).wf(),
            final(self).spec_pool_id() == old(self).spec_pool_id(),
            final(self).spec_total_shards() == old(self).spec_total_shards(),
            final(self)@.dom() == old(self)@.dom(),
            final(self).base == old(self).base,
            final(self).spec_entries().len() == old(self).spec_entries().len(),
            exists|t: u64|
                final(self)@ == #[trigger] spec_record_heartbeat(old(self)@, shard_id, t),
            ShardState::spec_counters_le(old(self)@, final(self)@),
    {
        let idx = self.index_of(shard_id);
        match idx {
            Option::Some(i) => {
                let mut e = self.entries[i];
                let stamp = now_unix_millis();
                e.last_heartbeat = Option::Some(stamp);
                let ghost pre = *self;
                self.entries.set(i, e);
                proof {
                    Self::lemma_view_update(pre, *self, shard_id);
                    assert(e == spec_with_heartbeat(old(self)@[shard_id], stamp));
                    assert(self@ == spec_record_heartbeat(old(self)@, shard_id, stamp));
                }
            },
            Option::None => {
                proof {
                    assert(self@ =~= old(self)@);
                    assert(self@ == spec_record_heartbeat(old(self)@, shard_id, 0));
                }
            },
        }
    }

    /// The health of one shard, or `None` outside the pool's range.
    pub fn get_health(&self, shard_id: u64) -> (r: Option<ShardHealth>)
        requires
            self.wf(),
        ensures
            r is Some <==> self@.contains_key(shard_id),
            r matches Some(h) ==> h == self@[shard_id].health,
    {
        match self.index_of(shard_id) {
            Option::Some(i) => Option::Some(self.entries[i].health),
            Option::None => Option::None,
        }
    }

    /// Total events received across all shards, saturating at the type
    /// bound.
    pub fn total_events_received(&self) -> (r: u64)
        requires
            self.wf(),
        ensures
            r == spec_clamp_u64(
                spec_sum(self.spec_entries().map_values(|e: ShardStateEntry| e.events_received)),
            ),
    {
        let ghost cs = self.entries@.map_values(|e: ShardStateEntry| e.events_received);
        let n = self.entries.len();
        let mut acc: u64 = 0;
        let mut i: usize = 0;
        while i < n
            invariant
                n == self.entries@.len(),
                cs == self.entries@.map_values(|e: ShardStateEntry| e.events_received),
                i <= n,
                acc == spec_clamp_u64(spec_sum(cs.subrange(0, i as int))),
            decreases n - i,
        {
            let x = self.entries[i].events_received;
            proof {
                lemma_sum_nonneg(cs.subrange(0, i as int));
                assert(cs.subrange(0, i as int + 1).drop_last() =~= cs.subrange(0, i as int));
                assert(cs.subrange(0, i as int + 1).last() == cs[i as int]);
                assert(cs[i as int] == x);
            }
            if acc <= u64::MAX - x {
                acc = acc + x;
            } else {
                acc = u64::MAX;
            }
            i += 1;
        }
        proof {
            assert(cs.subrange(0, n as int) =~= cs);
        }
        acc
    }

    /// Total events routed across all shards, saturating at the type
    /// bound.
    pub fn total_events_routed(&self) -> (r: u64)
        requires
            self.wf(),
        ensures
            r == spec_clamp_u64(
                spec_sum(self.spec_entries().map_values(|e: ShardStateEntry| e.events_routed)),
            ),
    {
        let ghost cs = self.entries@.map_values(|e: ShardStateEntry| e.events_routed);
        let n = self.entries.len();
        let mut acc: u64 = 0;
        let mut i: usize = 0;
        while i < n
            invariant
                n == self.entries@.len(),
                cs == self.entries@.map_values(|e: ShardStateEntry| e.events_routed),
                i <= n,
                acc == spec_clamp_u64(spec_sum(cs.subrange(0, i as int))),
            decreases n - i,
        {
            let x = self.entries[i].events_routed;
            proof {
                lemma_sum_nonneg(cs.subrange(0, i as int));
                assert(cs.subrange(0, i as int + 1).drop_last() =~= cs.subrange(0, i as int));
                assert(cs.subrange(0, i as int + 1).last() == cs[i as int]);
                assert(cs[i as int] == x);
            }
            if acc <= u64::MAX - x {
                acc = acc + x;
            } else {
                acc = u64::MAX;
            }
            i += 1;
        }
        proof {
            assert(cs.subrange(0, n as int) =~= cs);
        }
        acc
    }

    /// Total guilds across all shards, saturating at the type bound.
    /// Approximate by design; see the module note.
    pub fn total_guilds(&self) -> (r: u64)
        requires
            self.wf(),
        ensures
            r == spec_clamp_u64(
                spec_sum(self.spec_entries().map_values(|e: ShardStateEntry| e.guilds)),
            ),
    {
        let ghost cs = self.entries@.map_values(|e: ShardStateEntry| e.guilds);
        let n = self.entries.len();
        let mut acc: u64 = 0;
        let mut i: usize = 0;
        while i < n
            invariant
                n == self.entries@.len(),
                cs == self.entries@.map_values(|e: ShardStateEntry| e.guilds),
                i <= n,
                acc == spec_clamp_u64(spec_sum(cs.subrange(0, i as int))),
            decreases n - i,
        {
            let x = self.entries[i].guilds;
            proof {
                lemma_sum_nonneg(cs.subrange(0, i as int));
                assert(cs.subrange(0, i as int + 1).drop_last() =~= cs.subrange(0, i as int));
                assert(cs.subrange(0, i as int + 1).last() == cs[i as int]);
                assert(cs[i as int] == x);
            }
            if acc <= u64::MAX - x {
                acc = acc + x;
            } else {
                acc = u64::MAX;
            }
            i += 1;
        }
        proof {
            assert(cs.subrange(0, n as int) =~= cs);
        }
        acc
    }

    /// How many shards are ready to serve.
    pub fn ready_shards(&self) -> (r: usize)
        requires
            self.wf(),
        ensures
            r == spec_count_ready(self.spec_entries()),
    {
        let n = self.entries.len();
        let mut c: usize = 0;
        let mut i: usize = 0;
        while i < n
            invariant
                n == self.entries@.len(),
                i <= n,
                c <= i,
                c == spec_count_ready(self.entries@.subrange(0, i as int)),
            decreases n - i,
        {
            proof {
                assert(self.entries@.subrange(0, i as int + 1).drop_last() =~= self.entries@.subrange(
                    0,
                    i as int,
                ));
                assert(self.entries@.subrange(0, i as int + 1).last() == self.entries@[i as int]);
            }
            if self.entries[i].health.is_ready() {
                c = c + 1;
            }
            i += 1;
        }
        proof {
            assert(self.entries@.subrange(0, n as int) =~= self.entries@);
        }
        c
    }

    /// How many shards are healthy (ready or resuming).
    pub fn healthy_shards(&self) -> (r: usize)
        requires
            self.wf(),
        ensures
            r == spec_count_healthy(self.spec_entries()),
    {
        let n = self.entries.len();
        let mut c: usize = 0;
        let mut i: usize = 0;
        while i < n
            invariant
                n == self.entries@.len(),
                i <= n,
                c <= i,
                c == spec_count_healthy(self.entries@.subrange(0, i as int)),
            decreases n - i,
        {
            proof {
                assert(self.entries@.subrange(0, i as int + 1).drop_last() =~= self.entries@.subrange(
                    0,
                    i as int,
                ));
                assert(self.entries@.subrange(0, i as int + 1).last() == self.entries@[i as int]);
            }
            if self.entries[i].health.is_healthy() {
                c = c + 1;
            }
            i += 1;
        }
        proof {
            assert(self.entries@.subrange(0, n as int) =~= self.entries@);
        }
        c
    }

    /// The first shard ID of the pool's range.
    pub open spec fn spec_base(&self) -> u64 {
        self.base
    }

    /// How many shards this pool's table holds.
    pub fn shard_count(&self) -> (r: usize)
        requires
            self.wf(),
        ensures
            r == self.spec_entries().len(),
            forall|s: u64|
                self@.contains_key(s) <==> self.spec_base() <= s && (s as int) < self.spec_base()
                    as int + r,
    {
        self.entries.len()
    }

    /// Whether the pool is ready: at least one shard ready to serve.
    pub fn is_ready(&self) -> (r: bool)
        requires
            self.wf(),
        ensures
            r == (spec_count_ready(self.spec_entries()) > 0),
    {
        self.ready_shards() > 0
    }

    /// Whether the pool is fully healthy: every shard ready or resuming.
    pub fn is_healthy(&self) -> (r: bool)
        requires
            self.wf(),
        ensures
            r == (spec_count_healthy(self.spec_entries()) == self.spec_entries().len()),
    {
        proof {
            lemma_count_bounds(self.entries@);
        }
        self.healthy_shards() == self.shard_count()
    }
}

} // verus!
