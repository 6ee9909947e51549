//! The configuration value the core consumes. Reading it from the
//! environment is the surrounding process's concern; the core only fixes
//! its shape and the gateway intents the pool connects with.

use vstd::prelude::*;

verus! {

/// Guild lifecycle events.
pub const INTENT_GUILDS: u64 = 1;

/// Member events (privileged).
pub const INTENT_GUILD_MEMBERS: u64 = 2;

/// Message content (privileged; deliberately not requested).
pub const INTENT_MESSAGE_CONTENT: u64 = 32768;

/// Gateway configuration.
#[derive(Debug, Clone)]
pub struct GatewayConfig {
    /// Bot token for the gateway connection.
    pub discord_token: String,
    /// Pool identifier (0-indexed); each pool manages `SHARDS_PER_POOL` shards.
    pub pool_id: u64,
    /// Total number of shards across all pools.
    pub total_shards: u64,
    /// Broker server URL(s), comma-separated; `None` runs without a broker.
    pub nats_url: Option<String>,
    /// Health and metrics HTTP port.
    pub http_port: u16,
    /// Log level name.
    pub log_level: String,
}

impl GatewayConfig {
    /// The gateway intent bits the pool connects with: guilds and guild
    /// members, nothing more.
    pub fn intents() -> (r: u64)
        ensures
            r == INTENT_GUILDS | INTENT_GUILD_MEMBERS,
            r & INTENT_MESSAGE_CONTENT == 0,
    {
        proof {
            assert((INTENT_GUILDS | INTENT_GUILD_MEMBERS) & INTENT_MESSAGE_CONTENT == 0)
                by (bit_vector);
        }
        INTENT_GUILDS | INTENT_GUILD_MEMBERS
    }
}

} // verus!
