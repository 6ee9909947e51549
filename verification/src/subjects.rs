//! Subject prefixes used when routing envelopes onto the broker.

use vstd::prelude::*;

verus! {

/// Prefix of command subjects: `commands.{command_name}`.
pub const COMMANDS: &'static str = "commands";

/// Prefix of guild event subjects: `events.guild.{event}`.
pub const GUILD_EVENTS: &'static str = "events.guild";

/// Prefix of member event subjects: `events.member.{event}`.
pub const MEMBER_EVENTS: &'static str = "events.member";

/// Subject of interaction events.
pub const INTERACTION: &'static str = "commands.interaction";

} // verus!
