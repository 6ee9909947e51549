//! The per-shard runner state machine: health transitions, the circuit
//! breaker, and per-event state updates.
//!
//! The surrounding process owns the event loop (it awaits the gateway
//! stream, the broker acknowledgement, and the shutdown signal); every
//! decision the loop takes goes through the functions here. A shard
//! starts in `Connecting`; a reconnect-fatal receive error or ten
//! consecutive receive errors mark it `Dead` and end its runner; a
//! successful receipt resets the error counter.

use vstd::prelude::*;

use crate::error::GatewayError;
use crate::events::EventInput;
use crate::state::{
    spec_guild_total, spec_record_event, spec_record_heartbeat, spec_sat_inc, spec_set_guilds,
    spec_set_health, ShardHealth, ShardState, ShardStateEntry,
};

verus! {

/// Consecutive receive errors after which a shard is marked dead.
pub const MAX_CONSECUTIVE_ERRORS: u32 = 10;

/// Bookkeeping of one shard's runner: the shard it drives and its
/// consecutive receive-error count.
#[derive(Debug, Clone, Copy, PartialEq, Eq)]
pub struct ShardRunner {
    /// The shard this runner drives.
    pub shard_id: u64,
    /// Receive errors since the last successful receipt.
    pub consecutive_errors: u32,
}

impl ShardRunner {
    /// Between events the counter is below the threshold: reaching it
    /// ends the runner.
    pub open spec fn wf(&self) -> bool {
        self.consecutive_errors < MAX_CONSECUTIVE_ERRORS
    }

    /// A fresh runner for one shard.
    pub fn new(shard_id: u64) -> (r: ShardRunner)
        ensures
            r.shard_id == shard_id,
            r.consecutive_errors == 0,
            r.wf(),
    {
        ShardRunner { shard_id, consecutive_errors: 0 }
    }

    /// Handle one receive error. A reconnect-fatal error kills the shard
    /// at once; the tenth consecutive error trips the circuit breaker;
    /// any other error marks the shard disconnected and the runner
    /// continues.
    pub fn on_recv_error(&mut self, state: &mut ShardState, fatal: bool, cause: String) -> (r:
        Option<GatewayError>)
        requires
            old(self).wf(),
            old(state).wf(),
        ensures
            final(state).wf(),
            final(state).spec_pool_id() == old(state).spec_pool_id(),
            final(state).spec_total_shards() == old(state).spec_total_shards(),
            final(state).base == old(state).base,
            final(state).spec_entries().len() == old(state).spec_entries().len(),
            final(state)@.dom() == old(state)@.dom(),
            ShardState::spec_counters_le(old(state)@, final(state)@),
            final(self).shard_id == old(self).shard_id,
            final(self).consecutive_errors == old(self).consecutive_errors + 1,
            fatal ==> {
                &&& r == Option::Some(
                    GatewayError::ShardReconnectFailed { shard_id: old(self).shard_id, cause },
                )
                &&& final(state)@ == spec_set_health(
                    old(state)@,
                    old(self).shard_id,
                    ShardHealth::Dead,
                    0,
                )
            },
            !fatal && old(self).consecutive_errors + 1 == MAX_CONSECUTIVE_ERRORS ==> {
                &&& r == Option::Some(
                    GatewayError::ShardCircuitBroken {
                        shard_id: old(self).shard_id,
                        count: MAX_CONSECUTIVE_ERRORS,
                        max: MAX_CONSECUTIVE_ERRORS,
                    },
                )
                &&& final(state)@ == spec_set_health(
                    old(state)@,
                    old(self).shard_id,
                    ShardHealth::Dead,
                    0,
                )
            },
            !fatal && old(self).consecutive_errors + 1 < MAX_CONSECUTIVE_ERRORS ==> {
                &&& r is None
                &&& final(state)@ == spec_set_health(
                    old(state)@,
                    old(self).shard_id,
                    ShardHealth::Disconnected,
                    0,
                )
                &&& final(self).wf()
            },
    {
        self.consecutive_errors = self.consecutive_errors + 1;
        if fatal {
            state.set_health(self.shard_id, ShardHealth::Dead);
            proof {
                assert(state@ == spec_set_health(
                    old(state)@,
                    self.shard_id,
                    ShardHealth::Dead,
                    0,
                ));
            }
            Option::Some(GatewayError::ShardReconnectFailed { shard_id: self.shard_id, cause })
        } else if self.consecutive_errors >= MAX_CONSECUTIVE_ERRORS {
            state.set_health(self.shard_id, ShardHealth::Dead);
            proof {
                assert(state@ == spec_set_health(
                    old(state)@,
                    self.shard_id,
                    ShardHealth::Dead,
                    0,
                ));
            }
            Option::Some(
                GatewayError::ShardCircuitBroken {
                    shard_id: self.shard_id,
                    count: self.consecutive_errors,
                    max: MAX_CONSECUTIVE_ERRORS,
                },
            )
        } else {
            state.set_health(self.shard_id, ShardHealth::Disconnected);
            proof {
                assert(state@ == spec_set_health(
                    old(state)@,
                    self.shard_id,
                    ShardHealth::Disconnected,
                    0,
                ));
            }
            Option::None
        }
    }

    /// Handle one successfully received event: reset the error counter,
    /// count the receipt, and apply the well-known state transitions
    /// (`Ready`, `Resumed`, heartbeat acknowledgement, and the
    /// approximate guild accounting on guild create/delete).
    pub fn on_event(&mut self, state: &mut ShardState, event: &EventInput)
        requires
            old(self).wf(),
            old(state).wf(),
        ensures
            final(self).shard_id == old(self).shard_id,
            final(self).consecutive_errors == 0,
            final(self).wf(),
            final(state).wf(),
            final(state).spec_pool_id() == old(state).spec_pool_id(),
            final(state).spec_total_shards() == old(state).spec_total_shards(),
            final(state).base == old(state).base,
            final(state).spec_entries().len() == old(state).spec_entries().len(),
            final(state)@.dom() == old(state)@.dom(),
            ShardState::spec_counters_le(old(state)@, final(state)@),
            *event matches EventInput::Ready { guild_count } ==> exists|t: u64|
                final(state)@ == spec_set_guilds(
                    #[trigger] spec_set_health(
                        spec_record_event(old(state)@, old(self).shard_id),
                        old(self).shard_id,
                        ShardHealth::Ready,
                        t,
                    ),
                    old(self).shard_id,
                    guild_count,
                ),
            (*event matches EventInput::Resumed) ==> exists|t: u64|
                final(state)@ == #[trigger] spec_set_health(
                    spec_record_event(old(state)@, old(self).shard_id),
                    old(self).shard_id,
                    ShardHealth::Ready,
                    t,
                ),
            (*event matches EventInput::HeartbeatAck) ==> exists|t: u64|
                final(state)@ == #[trigger] spec_record_heartbeat(
                    spec_record_event(old(state)@, old(self).shard_id),
                    old(self).shard_id,
                    t,
                ),
            (*event matches EventInput::GuildCreate { .. }) ==> final(state)@ == spec_set_guilds(
                spec_record_event(old(state)@, old(self).shard_id),
                old(self).shard_id,
                spec_sat_inc(spec_guild_total(old(state).spec_entries())),
            ),
            *event matches EventInput::GuildDelete { unavailable, .. } ==> {
                &&& unavailable == Option::Some(true) ==> final(state)@ == spec_record_event(
                    old(state)@,
                    old(self).shard_id,
                )
                &&& unavailable != Option::Some(true) && spec_guild_total(
                    old(state).spec_entries(),
                ) > 0 ==> final(state)@ == spec_set_guilds(
                    spec_record_event(old(state)@, old(self).shard_id),
                    old(self).shard_id,
                    (spec_guild_total(old(state).spec_entries()) - 1) as u64,
                )
                &&& unavailable != Option::Some(true) && spec_guild_total(
                    old(state).spec_entries(),
                ) == 0 ==> final(state)@ == spec_record_event(old(state)@, old(self).shard_id)
            },
            !(*event matches EventInput::Ready { .. }) && !(*event matches EventInput::Resumed)
                && !(*event matches EventInput::HeartbeatAck) && !(*event
                matches EventInput::GuildCreate { .. }) && !(*event
                matches EventInput::GuildDelete { .. }) ==> final(state)@ == spec_record_event(
                old(state)@,
                old(self).shard_id,
            ),
    {
        self.consecutive_errors = 0;
        let sid = self.shard_id;
        state.record_event(sid);
        let ghost m1 = state@;
        let ghost entries1 = state.spec_entries();
        match event {
            EventInput::Ready { guild_count } => {
                state.set_health(sid, ShardHealth::Ready);
                let ghost m2 = state@;
                let ghost t = choose|t: u64| m2 == spec_set_health(m1, sid, ShardHealth::Ready, t);
                state.set_guilds(sid, *guild_count);
                proof {
                    assert(state@ == spec_set_guilds(
                        spec_set_health(m1, sid, ShardHealth::Ready, t),
                        sid,
                        *guild_count,
                    ));
                }
            },
            EventInput::Resumed => {
                state.set_health(sid, ShardHealth::Ready);
                proof {
                    let t = choose|t: u64| state@ == spec_set_health(
                        m1,
                        sid,
                        ShardHealth::Ready,
                        t,
                    );
                    assert(state@ == spec_set_health(m1, sid, ShardHealth::Ready, t));
                }
            },
            EventInput::HeartbeatAck => {
                state.record_heartbeat(sid);
            },
            EventInput::GuildCreate { .. } => {
                let current = state.total_guilds();
                proof {
                    assert(entries1.map_values(|e: ShardStateEntry| e.guilds) == old(
                        state,
                    ).spec_entries().map_values(|e: ShardStateEntry| e.guilds));
                    assert(current == spec_guild_total(old(state).spec_entries()));
                }
                let next = if current < u64::MAX {
                    current + 1
                } else {
                    current
                };
                state.set_guilds(sid, next);
            },
            EventInput::GuildDelete { unavailable, .. } => {
                let unav = matches!(*unavailable, Option::Some(true));
                if !unav {
                    let current = state.total_guilds();
                    proof {
                        assert(entries1.map_values(|e: ShardStateEntry| e.guilds) == old(
                            state,
                        ).spec_entries().map_values(|e: ShardStateEntry| e.guilds));
                        assert(current == spec_guild_total(old(state).spec_entries()));
                    }
                    if current > 0 {
                        state.set_guilds(sid, current - 1);
                    }
                }
            },
            _ => {},
        }
    }
}

} // verus!
