//! Names and retention parameters of the broker streams. The streams are
//! created idempotently at startup by the process around the core.

use vstd::prelude::*;

verus! {

/// Commands stream, fed by subjects matching `commands.>`.
pub const COMMANDS: &'static str = "COMMANDS";

/// Events stream, fed by subjects matching `events.>`.
pub const EVENTS: &'static str = "EVENTS";

/// Eligibility stream: declared for forward compatibility; no event type
/// routes to it in the core.
pub const ELIGIBILITY: &'static str = "ELIGIBILITY";

/// Subject selector of the commands stream.
pub const COMMANDS_SUBJECTS: &'static str = "commands.>";

/// Subject selector of the events stream.
pub const EVENTS_SUBJECTS: &'static str = "events.>";

/// Maximum message age of the commands stream, in seconds.
pub const COMMANDS_MAX_AGE_SECS: u64 = 60;

/// Maximum message age of the events stream, in seconds.
pub const EVENTS_MAX_AGE_SECS: u64 = 300;

} // verus!
