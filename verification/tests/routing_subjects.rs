use gateway_core::envelope::{Envelope, EventData};
use gateway_core::routing::route_subject;
use gateway_core::{streams, subjects};

#[test]
fn test_route_interaction() {
    let event = Envelope {
        event_id: "test".to_string(),
        event_type: "interaction.create".to_string(),
        shard_id: 0,
        timestamp: 0,
        guild_id: None,
        channel_id: None,
        user_id: None,
        data: EventData::Null,
    };

    assert_eq!(event.event_type, "interaction.create");
    assert_eq!(route_subject(&event.event_type), "commands.interaction");
}

#[test]
fn test_stream_constants() {
    assert_eq!(streams::COMMANDS, "COMMANDS");
    assert_eq!(streams::EVENTS, "EVENTS");
    assert_eq!(streams::ELIGIBILITY, "ELIGIBILITY");
}

#[test]
fn subject_prefix_constants() {
    assert_eq!(subjects::COMMANDS, "commands");
    assert_eq!(subjects::GUILD_EVENTS, "events.guild");
    assert_eq!(subjects::MEMBER_EVENTS, "events.member");
    assert_eq!(subjects::INTERACTION, "commands.interaction");
    assert_eq!(streams::COMMANDS_SUBJECTS, "commands.>");
    assert_eq!(streams::EVENTS_SUBJECTS, "events.>");
    assert_eq!(streams::COMMANDS_MAX_AGE_SECS, 60);
    assert_eq!(streams::EVENTS_MAX_AGE_SECS, 300);
}

#[test]
fn route_table_is_exact() {
    assert_eq!(route_subject("interaction.create"), "commands.interaction");
    assert_eq!(route_subject("guild.join"), "events.guild.join");
    assert_eq!(route_subject("guild.leave"), "events.guild.leave");
    assert_eq!(route_subject("guild.update"), "events.guild.update");
    assert_eq!(route_subject("member.join"), "events.member.join");
    assert_eq!(route_subject("member.leave"), "events.member.leave");
    assert_eq!(route_subject("member.update"), "events.member.update");
}

#[test]
fn route_unknown_type_replaces_dots() {
    assert_eq!(route_subject("a.b.c"), "events.a_b_c");
    assert_eq!(route_subject("presence.update"), "events.presence_update");
    assert_eq!(route_subject(""), "events.");
}
