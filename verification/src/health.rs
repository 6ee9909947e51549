//! The liveness and readiness views consumed by the out-of-band HTTP
//! health surface, with their exact JSON renderings.

use vstd::prelude::*;

use crate::json::{append_quoted, spec_quoted};
use crate::state::{spec_count_ready, spec_guild_total, ShardState};
use crate::text::{spec_dec, u64_to_string};

verus! {

/// Liveness response: the process is up.
#[derive(Debug, Clone)]
pub struct HealthResponse {
    /// Fixed status text.
    pub status: String,
    /// The running build's version string.
    pub version: String,
    /// The pool this process serves.
    pub pool_id: u64,
}

/// Readiness response: whether the pool can serve, and the aggregates
/// behind that judgement.
#[derive(Debug, Clone, Copy, PartialEq, Eq)]
pub struct ReadyResponse {
    /// Ready iff at least one shard is ready and the broker is connected.
    pub ready: bool,
    /// The pool this process serves.
    pub pool_id: u64,
    /// Shards this pool owns.
    pub shards_total: usize,
    /// Shards currently ready to serve.
    pub shards_ready: usize,
    /// Broker connection status.
    pub nats_connected: bool,
    /// Total guilds across the pool's shards (approximate).
    pub guilds_total: u64,
}

/// The rendering of a JSON boolean.
pub open spec fn spec_bool_json(b: bool) -> Seq<char> {
    if b { "true"@ } else { "false"@ }
}

fn append_bool(out: &mut String, b: bool)
    ensures
        final(out)@ == old(out)@ + spec_bool_json(b),
{
    if b {
        out.append("true");
    } else {
        out.append("false");
    }
}

/// The exact JSON text of a liveness response.
pub open spec fn spec_health_json(h: HealthResponse) -> Seq<char> {
    "{\"status\":"@ + spec_quoted(h.status@) + ",\"version\":"@ + spec_quoted(h.version@)
        + ",\"pool_id\":"@ + spec_dec(h.pool_id as int) + "}"@
}

/// The exact JSON text of a readiness response.
pub open spec fn spec_ready_json(r: ReadyResponse) -> Seq<char> {
    "{\"ready\":"@ + spec_bool_json(r.ready) + ",\"pool_id\":"@ + spec_dec(r.pool_id as int)
        + ",\"shards_total\":"@ + spec_dec(r.shards_total as int) + ",\"shards_ready\":"@
        + spec_dec(r.shards_ready as int) + ",\"nats_connected\":"@ + spec_bool_json(
        r.nats_connected,
    ) + ",\"guilds_total\":"@ + spec_dec(r.guilds_total as int) + "}"@
}

impl HealthResponse {
    /// The liveness view of a running pool.
    pub fn healthy(version: String, pool_id: u64) -> (r: HealthResponse)
        ensures
            r.status@ == "healthy"@,
            r.version == version,
            r.pool_id == pool_id,
    {
        HealthResponse { status: String::from_str("healthy"), version, pool_id }
    }

    /// Render the response as JSON.
    pub fn to_json(&self) -> (r: String)
        ensures
            r@ == spec_health_json(*self),
    {
        let mut out = String::from_str("{\"status\":");
        append_quoted(&mut out, self.status.as_str());
        out.append(",\"version\":");
        append_quoted(&mut out, self.version.as_str());
        out.append(",\"pool_id\":");
        let pid = u64_to_string(self.pool_id);
        out.append(pid.as_str());
        out.append("}");
        proof {
            assert(out@ =~= spec_health_json(*self));
        }
        out
    }
}

impl ReadyResponse {
    /// The readiness view of a pool: ready iff at least one shard is
    /// ready to serve and the broker connection is up.
    pub fn from_state(state: &ShardState, nats_connected: bool) -> (r: ReadyResponse)
        requires
            state.wf(),
        ensures
            r.pool_id == state.spec_pool_id(),
            r.shards_total == state.spec_entries().len(),
            r.shards_ready == spec_count_ready(state.spec_entries()),
            r.nats_connected == nats_connected,
            r.guilds_total == spec_guild_total(state.spec_entries()),
            r.ready == (spec_count_ready(state.spec_entries()) > 0 && nats_connected),
    {
        let shards_ready = state.ready_shards();
        let shards_total = state.shard_count();
        let ready = shards_ready > 0 && nats_connected;
        ReadyResponse {
            ready,
            pool_id: state.pool_id(),
            shards_total,
            shards_ready,
            nats_connected,
            guilds_total: state.total_guilds(),
        }
    }

    /// Render the response as JSON.
    pub fn to_json(&self) -> (r: String)
        ensures
            r@ == spec_ready_json(*self),
    {
        let mut out = String::from_str("{\"ready\":");
        append_bool(&mut out, self.ready);
        out.append(",\"pool_id\":");
        let pid = u64_to_string(self.pool_id);
        out.append(pid.as_str());
        out.append(",\"shards_total\":");
        let st = u64_to_string(self.shards_total as u64);
        out.append(st.as_str());
        out.append(",\"shards_ready\":");
        let sr = u64_to_string(self.shards_ready as u64);
        out.append(sr.as_str());
        out.append(",\"nats_connected\":");
        append_bool(&mut out, self.nats_connected);
        out.append(",\"guilds_total\":");
        let gt = u64_to_string(self.guilds_total);
        out.append(gt.as_str());
        out.append("}");
        proof {
            assert(out@ =~= spec_ready_json(*self));
        }
        out
    }
}

} // verus!
