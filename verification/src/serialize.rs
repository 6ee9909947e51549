//! Envelope construction: which events are forwarded, and exactly what
//! envelope each forwarded event becomes.
//!
//! `build_envelope` is the pure core, fully determined by its arguments.
//! `serialize_event` draws the fresh event ID and the current time and is
//! otherwise the same function.

use vstd::prelude::*;

use crate::clock::now_unix_millis;
use crate::envelope::{DataView, Envelope, EnvelopeView, EventData};
use crate::events::EventInput;
use crate::json::{FieldView, JsonField, JsonScalar, ScalarView};
use crate::text::{spec_dec, u64_to_string};

verus! {

/// Whether an event is forwarded onto the bus at all. Heartbeats,
/// connection control events, `Ready`, and unrecognised events are not.
pub open spec fn spec_forwarded(e: EventInput) -> bool {
    match e {
        EventInput::GuildCreate { .. } => true,
        EventInput::GuildDelete { .. } => true,
        EventInput::MemberAdd { .. } => true,
        EventInput::MemberRemove { .. } => true,
        EventInput::MemberUpdate { .. } => true,
        EventInput::InteractionCreate { .. } => true,
        _ => false,
    }
}

/// The canonical dotted event type of a forwarded event.
pub open spec fn spec_event_type_of(e: EventInput) -> Seq<char>
    recommends
        spec_forwarded(e),
{
    match e {
        EventInput::GuildCreate { .. } => "guild.join"@,
        EventInput::GuildDelete { .. } => "guild.leave"@,
        EventInput::MemberAdd { .. } => "member.join"@,
        EventInput::MemberRemove { .. } => "member.leave"@,
        EventInput::MemberUpdate { .. } => "member.update"@,
        EventInput::InteractionCreate { .. } => "interaction.create"@,
        _ => Seq::empty(),
    }
}

/// An optional ID rendered as an optional decimal string.
pub open spec fn spec_opt_dec(o: Option<u64>) -> Option<Seq<char>> {
    match o {
        Option::None => Option::None,
        Option::Some(n) => Option::Some(spec_dec(n as int)),
    }
}

/// The `guild_id` envelope field of a forwarded event.
pub open spec fn spec_guild_id_of(e: EventInput) -> Option<Seq<char>> {
    match e {
        EventInput::GuildCreate { guild_id, .. } => Option::Some(spec_dec(guild_id as int)),
        EventInput::GuildDelete { guild_id, .. } => Option::Some(spec_dec(guild_id as int)),
        EventInput::MemberAdd { guild_id, .. } => Option::Some(spec_dec(guild_id as int)),
        EventInput::MemberRemove { guild_id, .. } => Option::Some(spec_dec(guild_id as int)),
        EventInput::MemberUpdate { guild_id, .. } => Option::Some(spec_dec(guild_id as int)),
        EventInput::InteractionCreate { guild_id, .. } => spec_opt_dec(guild_id),
        _ => Option::None,
    }
}

/// The `channel_id` envelope field of a forwarded event.
pub open spec fn spec_channel_id_of(e: EventInput) -> Option<Seq<char>> {
    match e {
        EventInput::InteractionCreate { channel_id, .. } => spec_opt_dec(channel_id),
        _ => Option::None,
    }
}

/// The `user_id` envelope field of a forwarded event.
pub open spec fn spec_user_id_of(e: EventInput) -> Option<Seq<char>> {
    match e {
        EventInput::MemberAdd { user_id, .. } => Option::Some(spec_dec(user_id as int)),
        EventInput::MemberRemove { user_id, .. } => Option::Some(spec_dec(user_id as int)),
        EventInput::MemberUpdate { user_id, .. } => Option::Some(spec_dec(user_id as int)),
        EventInput::InteractionCreate { user_id, .. } => spec_opt_dec(user_id),
        _ => Option::None,
    }
}

/// The `data` payload of a forwarded event: the exact field set, field
/// order, and field names of the wire contract (`interaction_token`,
/// never bare `token`).
pub open spec fn spec_data_of(e: EventInput) -> DataView {
    match e {
        EventInput::GuildCreate { name, member_count, owner_id, .. } => DataView::Object(
            seq![
                FieldView { key: "name"@, value: ScalarView::Str(name@) },
                FieldView {
                    key: "member_count"@,
                    value: match member_count {
                        Option::Some(n) => ScalarView::UInt(n),
                        Option::None => ScalarView::Null,
                    },
                },
                FieldView { key: "owner_id"@, value: ScalarView::Str(spec_dec(owner_id as int)) },
            ],
        ),
        EventInput::GuildDelete { unavailable, .. } => DataView::Object(
            seq![
                FieldView {
                    key: "unavailable"@,
                    value: match unavailable {
                        Option::Some(b) => ScalarView::Bool(b),
                        Option::None => ScalarView::Null,
                    },
                },
            ],
        ),
        EventInput::MemberAdd { username, discriminator, .. } => DataView::Object(
            seq![
                FieldView { key: "username"@, value: ScalarView::Str(username@) },
                FieldView { key: "discriminator"@, value: ScalarView::UInt(discriminator as u64) },
            ],
        ),
        EventInput::MemberRemove { .. } => DataView::Null,
        EventInput::MemberUpdate { roles, nick, .. } => DataView::Object(
            seq![
                FieldView {
                    key: "roles"@,
                    value: ScalarView::StrArray(roles@.map_values(|r: u64| spec_dec(r as int))),
                },
                FieldView {
                    key: "nick"@,
                    value: match nick {
                        Option::Some(s) => ScalarView::Str(s@),
                        Option::None => ScalarView::Null,
                    },
                },
            ],
        ),
        EventInput::InteractionCreate { interaction_id, interaction_kind, interaction_token, .. } =>
            DataView::Object(
                seq![
                    FieldView {
                        key: "interaction_id"@,
                        value: ScalarView::Str(spec_dec(interaction_id as int)),
                    },
                    FieldView {
                        key: "interaction_type"@,
                        value: ScalarView::Str(interaction_kind@),
                    },
                    FieldView {
                        key: "interaction_token"@,
                        value: ScalarView::Str(interaction_token@),
                    },
                ],
            ),
        _ => DataView::Null,
    }
}

/// The envelope a forwarded event becomes, given the drawn event ID and
/// the serialization time.
pub open spec fn spec_envelope_of(
    e: EventInput,
    shard_id: u64,
    event_id: Seq<char>,
    timestamp: u64,
) -> EnvelopeView
    recommends
        spec_forwarded(e),
{
    EnvelopeView {
        event_id: event_id,
        event_type: spec_event_type_of(e),
        shard_id: shard_id,
        timestamp: timestamp,
        guild_id: spec_guild_id_of(e),
        channel_id: spec_channel_id_of(e),
        user_id: spec_user_id_of(e),
        data: spec_data_of(e),
    }
}

fn opt_dec(o: &Option<u64>) -> (r: Option<String>)
    ensures
        crate::envelope::opt_str_view(r) == spec_opt_dec(*o),
{
    match o {
        Option::None => Option::None,
        Option::Some(n) => Option::Some(u64_to_string(*n)),
    }
}

/// Build the envelope for `event`, or `None` if the event is not
/// forwarded. Pure: the result is fully determined by the arguments.
pub fn build_envelope(event: &EventInput, shard_id: u64, event_id: String, timestamp: u64) -> (r:
    Option<Envelope>)
    ensures
        r is Some <==> spec_forwarded(*event),
        r matches Some(env) ==> env@ == spec_envelope_of(*event, shard_id, event_id@, timestamp),
{
    match event {
        EventInput::GuildCreate { guild_id, name, member_count, owner_id } => {
            let mut fields: Vec<JsonField> = Vec::new();
            fields.push(
                JsonField { key: String::from_str("name"), value: JsonScalar::Str(name.clone()) },
            );
            let mc = match member_count {
                Option::Some(n) => JsonScalar::UInt(*n),
                Option::None => JsonScalar::Null,
            };
            fields.push(JsonField { key: String::from_str("member_count"), value: mc });
            fields.push(
                JsonField {
                    key: String::from_str("owner_id"),
                    value: JsonScalar::Str(u64_to_string(*owner_id)),
                },
            );
            let env = Envelope {
                event_id,
                event_type: String::from_str("guild.join"),
                shard_id,
                timestamp,
                guild_id: Option::Some(u64_to_string(*guild_id)),
                channel_id: Option::None,
                user_id: Option::None,
                data: EventData::Object(fields),
            };
            proof {
                assert(env@ =~~= spec_envelope_of(*event, shard_id, env.event_id@, timestamp));
            }
            Option::Some(env)
        },
        EventInput::GuildDelete { guild_id, unavailable } => {
            let mut fields: Vec<JsonField> = Vec::new();
            let un = match unavailable {
                Option::Some(b) => JsonScalar::Bool(*b),
                Option::None => JsonScalar::Null,
            };
            fields.push(JsonField { key: String::from_str("unavailable"), value: un });
            let env = Envelope {
                event_id,
                event_type: String::from_str("guild.leave"),
                shard_id,
                timestamp,
                guild_id: Option::Some(u64_to_string(*guild_id)),
                channel_id: Option::None,
                user_id: Option::None,
                data: EventData::Object(fields),
            };
            proof {
                assert(env@ =~~= spec_envelope_of(*event, shard_id, env.event_id@, timestamp));
            }
            Option::Some(env)
        },
        EventInput::MemberAdd { guild_id, user_id, username, discriminator } => {
            let mut fields: Vec<JsonField> = Vec::new();
            fields.push(
                JsonField {
                    key: String::from_str("username"),
                    value: JsonScalar::Str(username.clone()),
                },
            );
            fields.push(
                JsonField {
                    key: String::from_str("discriminator"),
                    value: JsonScalar::UInt(*discriminator as u64),
                },
            );
            let env = Envelope {
                event_id,
                event_type: String::from_str("member.join"),
                shard_id,
                timestamp,
                guild_id: Option::Some(u64_to_string(*guild_id)),
                channel_id: Option::None,
                user_id: Option::Some(u64_to_string(*user_id)),
                data: EventData::Object(fields),
            };
            proof {
                assert(env@ =~~= spec_envelope_of(*event, shard_id, env.event_id@, timestamp));
            }
            Option::Some(env)
        },
        EventInput::MemberRemove { guild_id, user_id } => {
            let env = Envelope {
                event_id,
                event_type: String::from_str("member.leave"),
                shard_id,
                timestamp,
                guild_id: Option::Some(u64_to_string(*guild_id)),
                channel_id: Option::None,
                user_id: Option::Some(u64_to_string(*user_id)),
                data: EventData::Null,
            };
            proof {
                assert(env@ =~~= spec_envelope_of(*event, shard_id, env.event_id@, timestamp));
            }
            Option::Some(env)
        },
        EventInput::MemberUpdate { guild_id, user_id, roles, nick } => {
            let mut roles_s: Vec<String> = Vec::new();
            let n = roles.len();
            let mut i: usize = 0;
            while i < n
                invariant
                    n == roles@.len(),
                    i <= n,
                    roles_s@.len() == i,
                    roles_s@.map_values(|s: String| s@) == roles@.subrange(0, i as int).map_values(
                        |r: u64| spec_dec(r as int),
                    ),
                decreases n - i,
            {
                let ghost prev = roles_s@;
                let rs = u64_to_string(roles[i]);
                proof {
                    assert(rs@ == spec_dec(roles@[i as int] as int));
                }
                roles_s.push(rs);
                proof {
                    let lhs = roles_s@.map_values(|s: String| s@);
                    let full = roles@.subrange(0, i as int + 1);
                    let rhs = full.map_values(|r: u64| spec_dec(r as int));
                    assert(roles_s@ == prev.push(rs));
                    assert(lhs.len() == i + 1);
                    assert(full.len() == i + 1);
                    assert forall|j: int| 0 <= j < lhs.len() implies lhs[j] == rhs[j] by {
                        assert(lhs[j] == roles_s@[j]@);
                        assert(rhs[j] == spec_dec(full[j] as int));
                        assert(full[j] == roles@[j]);
                        if j < i {
                            assert(roles_s@[j] == prev[j]);
                            assert(prev.map_values(|s: String| s@)[j] == prev[j]@);
                            assert(roles@.subrange(0, i as int).map_values(
                                |r: u64| spec_dec(r as int),
                            )[j] == spec_dec(roles@.subrange(0, i as int)[j] as int));
                            assert(roles@.subrange(0, i as int)[j] == roles@[j]);
                        } else {
                            assert(roles_s@[j] == rs);
                        }
                    }
                    assert(lhs =~= rhs);
                }
                i += 1;
            }
            proof {
                assert(roles@.subrange(0, n as int) =~= roles@);
            }
            let mut fields: Vec<JsonField> = Vec::new();
            fields.push(
                JsonField { key: String::from_str("roles"), value: JsonScalar::StrArray(roles_s) },
            );
            let nk = match nick {
                Option::Some(s) => JsonScalar::Str(s.clone()),
                Option::None => JsonScalar::Null,
            };
            fields.push(JsonField { key: String::from_str("nick"), value: nk });
            let env = Envelope {
                event_id,
                event_type: String::from_str("member.update"),
                shard_id,
                timestamp,
                guild_id: Option::Some(u64_to_string(*guild_id)),
                channel_id: Option::None,
                user_id: Option::Some(u64_to_string(*user_id)),
                data: EventData::Object(fields),
            };
            proof {
                assert(env@ =~~= spec_envelope_of(*event, shard_id, env.event_id@, timestamp));
            }
            Option::Some(env)
        },
        EventInput::InteractionCreate {
            interaction_id,
            interaction_kind,
            interaction_token,
            guild_id,
            channel_id,
            user_id,
        } => {
            let mut fields: Vec<JsonField> = Vec::new();
            fields.push(
                JsonField {
                    key: String::from_str("interaction_id"),
                    value: JsonScalar::Str(u64_to_string(*interaction_id)),
                },
            );
            fields.push(
                JsonField {
                    key: String::from_str("interaction_type"),
                    value: JsonScalar::Str(interaction_kind.clone()),
                },
            );
            fields.push(
                JsonField {
                    key: String::from_str("interaction_token"),
                    value: JsonScalar::Str(interaction_token.clone()),
                },
            );
            let env = Envelope {
                event_id,
                event_type: String::from_str("interaction.create"),
                shard_id,
                timestamp,
                guild_id: opt_dec(guild_id),
                channel_id: opt_dec(channel_id),
                user_id: opt_dec(user_id),
                data: EventData::Object(fields),
            };
            proof {
                assert(env@ =~~= spec_envelope_of(*event, shard_id, env.event_id@, timestamp));
            }
            Option::Some(env)
        },
        _ => Option::None,
    }
}

/// Relies on `uuid::Uuid::new_v4` and its `Display` rendering: a fresh
/// random (version 4) UUID, shown in the hyphenated form, which is
/// exactly 36 characters. The value is random, so nothing more is
/// assumed of it.
#[verifier::external_body]
fn fresh_event_id() -> (r: String)
    ensures
        r@.len() == 36,
{
    uuid::Uuid::new_v4().to_string()
}

/// Serialize an incoming event into its envelope, or `None` for events
/// that are not forwarded. The event ID is a fresh UUID and the
/// timestamp is the current time; everything else is fixed by the event.
pub fn serialize_event(event: &EventInput, shard_id: u64) -> (r: Option<Envelope>)
    ensures
        r is Some <==> spec_forwarded(*event),
        r matches Some(env) ==> {
            &&& env@.event_id.len() == 36
            &&& env@ == spec_envelope_of(*event, shard_id, env@.event_id, env@.timestamp)
        },
{
    let event_id = fresh_event_id();
    let timestamp = now_unix_millis();
    build_envelope(event, shard_id, event_id, timestamp)
}

} // verus!
