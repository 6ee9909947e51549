//! The core's model of an incoming gateway event: exactly the plain
//! values the pipeline reads from it. The surrounding process converts
//! the gateway client's event type into this one before handing it in.

use vstd::prelude::*;

verus! {

/// One incoming gateway event, reduced to what the core consumes.
#[derive(Debug, Clone)]
pub enum EventInput {
    /// Session became ready; carries how many guilds the shard serves.
    Ready { guild_count: u64 },
    /// Session resumed after a disconnect.
    Resumed,
    /// Heartbeat acknowledgement.
    HeartbeatAck,
    /// Heartbeat request (not forwarded).
    Heartbeat,
    /// Connection hello (not forwarded).
    Hello,
    /// Session invalidation (not forwarded).
    InvalidateSession,
    /// Reconnect hint (not forwarded).
    Reconnect,
    /// A guild became visible to the shard.
    GuildCreate { guild_id: u64, name: String, member_count: Option<u64>, owner_id: u64 },
    /// A guild was removed from the shard.
    GuildDelete { guild_id: u64, unavailable: Option<bool> },
    /// Guild metadata changed (observed for metrics, not forwarded).
    GuildUpdate { guild_id: u64 },
    /// A member joined a guild.
    MemberAdd { guild_id: u64, user_id: u64, username: String, discriminator: u16 },
    /// A member left a guild.
    MemberRemove { guild_id: u64, user_id: u64 },
    /// A member's roles or nickname changed.
    MemberUpdate { guild_id: u64, user_id: u64, roles: Vec<u64>, nick: Option<String> },
    /// An interaction (e.g. a slash command) was created.
    InteractionCreate {
        interaction_id: u64,
        interaction_kind: String,
        interaction_token: String,
        guild_id: Option<u64>,
        channel_id: Option<u64>,
        user_id: Option<u64>,
    },
    /// Any other event (not forwarded).
    Other,
}

/// The label an event counts under in the received-events metric.
pub open spec fn spec_event_label(e: EventInput) -> Seq<char> {
    match e {
        EventInput::GuildCreate { .. } => "guild_create"@,
        EventInput::GuildDelete { .. } => "guild_delete"@,
        EventInput::GuildUpdate { .. } => "guild_update"@,
        EventInput::MemberAdd { .. } => "member_add"@,
        EventInput::MemberRemove { .. } => "member_remove"@,
        EventInput::MemberUpdate { .. } => "member_update"@,
        EventInput::InteractionCreate { .. } => "interaction_create"@,
        EventInput::Ready { .. } => "ready"@,
        EventInput::Resumed => "resumed"@,
        EventInput::HeartbeatAck => "heartbeat_ack"@,
        _ => "other"@,
    }
}

/// The metric label of an event, one per well-known kind.
pub fn event_label(e: &EventInput) -> (r: &'static str)
    ensures
        r@ == spec_event_label(*e),
{
    match e {
        EventInput::GuildCreate { .. } => "guild_create",
        EventInput::GuildDelete { .. } => "guild_delete",
        EventInput::GuildUpdate { .. } => "guild_update",
        EventInput::MemberAdd { .. } => "member_add",
        EventInput::MemberRemove { .. } => "member_remove",
        EventInput::MemberUpdate { .. } => "member_update",
        EventInput::InteractionCreate { .. } => "interaction_create",
        EventInput::Ready { .. } => "ready",
        EventInput::Resumed => "resumed",
        EventInput::HeartbeatAck => "heartbeat_ack",
        _ => "other",
    }
}

} // verus!
