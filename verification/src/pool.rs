//! Pool-level shard arithmetic: which contiguous range of shard IDs a
//! pool owns, and the 32-bit bound that the gateway API puts on shard IDs.

use vstd::prelude::*;

use crate::error::GatewayError;
use crate::state::{ShardState, ShardStateEntry};

verus! {

/// Number of shards each gateway process (pool) owns.
pub const SHARDS_PER_POOL: u64 = 25;

/// Start of the shard-ID interval a pool owns: `pool_id * 25`.
pub open spec fn spec_range_start(pool_id: u64) -> int {
    pool_id * SHARDS_PER_POOL
}

/// End (exclusive) of the shard-ID interval a pool owns:
/// `min((pool_id + 1) * 25, total_shards)`.
pub open spec fn spec_range_end(pool_id: u64, total_shards: u64) -> int {
    vstd::math::min((pool_id + 1) * SHARDS_PER_POOL, total_shards as int)
}

/// Whether shard ID `s` lies in the range pool `pool_id` owns.
pub open spec fn spec_in_range(pool_id: u64, total_shards: u64, s: u64) -> bool {
    spec_range_start(pool_id) <= s < spec_range_end(pool_id, total_shards)
}

/// Compute the half-open shard-ID range `[r.0, r.1)` owned by a pool.
///
/// The bounds denote exactly the interval
/// `[pool_id * 25, min((pool_id + 1) * 25, total_shards))`; when that
/// interval is empty the two bounds are equal.
pub fn shard_range(pool_id: u64, total_shards: u64) -> (r: (u64, u64))
    requires
        total_shards <= u32::MAX,
    ensures
        r.0 <= r.1 <= total_shards,
        forall|s: u64| (r.0 <= s < r.1) <==> spec_in_range(pool_id, total_shards, s),
        r.1 - r.0 <= SHARDS_PER_POOL,
        spec_range_start(pool_id) < spec_range_end(pool_id, total_shards) ==> r.0
            == spec_range_start(pool_id) && r.1 == spec_range_end(pool_id, total_shards),
        spec_range_start(pool_id) >= spec_range_end(pool_id, total_shards) ==> r.0 == r.1,
{
    if pool_id > u32::MAX as u64 {
        // start = pool_id * 25 > u32::MAX >= total_shards, so the range is empty.
        proof {
            assert(pool_id * 25 > u32::MAX) by (nonlinear_arith)
                requires pool_id > u32::MAX as u64;
        }
        (total_shards, total_shards)
    } else {
        proof {
            assert(pool_id * 25 <= (u32::MAX as u64) * 25) by (nonlinear_arith)
                requires pool_id <= u32::MAX as u64;
        }
        let start = pool_id * SHARDS_PER_POOL;
        if start >= total_shards {
            (total_shards, total_shards)
        } else if start + SHARDS_PER_POOL <= total_shards {
            (start, start + SHARDS_PER_POOL)
        } else {
            (start, total_shards)
        }
    }
}

/// Everything a pool needs before any shard connects: its identity, its
/// shard-ID range, and the seeded state table. The gateway sessions
/// themselves are built by the process around the core, one per ID in
/// `[first_shard, end_shard)`.
#[derive(Debug, Clone)]
pub struct PoolPlan {
    /// This pool's identifier.
    pub pool_id: u64,
    /// Total shards across all pools.
    pub total_shards: u64,
    /// First shard ID this pool owns.
    pub first_shard: u64,
    /// One past the last shard ID this pool owns.
    pub end_shard: u64,
    /// The state table, seeded with exactly this pool's shard IDs.
    pub state: ShardState,
}

/// Validate the configuration and lay out a pool: the total shard count
/// must fit in 32 bits (so every shard ID does too); the shard range and
/// the state table follow from it.
pub fn plan_pool(pool_id: u64, total_shards: u64) -> (r: Result<PoolPlan, GatewayError>)
    ensures
        (r is Err) <==> (total_shards > u32::MAX),
        r matches Err(e) ==> e == (GatewayError::ShardIdOverflow { value: total_shards }),
        r matches Ok(p) ==> p.pool_id == pool_id && p.total_shards == total_shards
            && p.first_shard <= p.end_shard <= total_shards && p.end_shard - p.first_shard
            <= SHARDS_PER_POOL && p.state.wf() && p.state.spec_pool_id() == pool_id
            && p.state.spec_total_shards() == total_shards,
        r matches Ok(p) ==> (forall|s: u64|
            (p.first_shard <= s < p.end_shard) <==> spec_in_range(pool_id, total_shards, s)),
        r matches Ok(p) ==> (spec_range_start(pool_id) < spec_range_end(pool_id, total_shards)
            ==> p.first_shard == spec_range_start(pool_id) && p.end_shard == spec_range_end(
            pool_id,
            total_shards,
        )),
        r matches Ok(p) ==> (spec_range_start(pool_id) >= spec_range_end(pool_id, total_shards)
            ==> p.first_shard == p.end_shard),
        r matches Ok(p) ==> (forall|s: u64|
            p.state@.contains_key(s) <==> spec_in_range(pool_id, total_shards, s)),
        r matches Ok(p) ==> (forall|s: u64|
            p.state@.contains_key(s) ==> p.state@[s] == ShardStateEntry::spec_initial()),
{
    if total_shards > u32::MAX as u64 {
        return Result::Err(GatewayError::ShardIdOverflow { value: total_shards });
    }
    let (first_shard, end_shard) = shard_range(pool_id, total_shards);
    let state = ShardState::new(pool_id, total_shards);
    Result::Ok(PoolPlan { pool_id, total_shards, first_shard, end_shard, state })
}

} // verus!
