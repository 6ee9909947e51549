use gateway_core::error::GatewayError;
use gateway_core::events::{event_label, EventInput};
use gateway_core::health::ReadyResponse;
use gateway_core::pool::plan_pool;
use gateway_core::publisher::PublisherState;
use gateway_core::routing::route_subject;
use gateway_core::runner::{ShardRunner, MAX_CONSECUTIVE_ERRORS};
use gateway_core::state::{ShardHealth, ShardState};

fn guild_create() -> EventInput {
    EventInput::GuildCreate {
        guild_id: 1,
        name: "G".to_string(),
        member_count: Some(3),
        owner_id: 2,
    }
}

/// Ten consecutive receive errors kill shard 7 and nothing else.
#[test]
fn circuit_breaker_trips_on_tenth_error() {
    let mut state = plan_pool(0, 100).unwrap().state;
    let mut runner = ShardRunner::new(7);

    for n in 1..MAX_CONSECUTIVE_ERRORS {
        let outcome = runner.on_recv_error(&mut state, false, "transient".to_string());
        assert!(outcome.is_none(), "error {n} must not end the runner");
        assert_eq!(state.get_health(7), Some(ShardHealth::Disconnected));
    }

    let outcome = runner.on_recv_error(&mut state, false, "transient".to_string());
    match outcome {
        Some(GatewayError::ShardCircuitBroken { shard_id, count, max }) => {
            assert_eq!(shard_id, 7);
            assert_eq!(count, 10);
            assert_eq!(max, 10);
        }
        other => panic!("expected ShardCircuitBroken, got {other:?}"),
    }
    assert_eq!(state.get_health(7), Some(ShardHealth::Dead));

    // The other shards of the pool are untouched.
    for s in 0..25u64 {
        if s != 7 {
            assert_eq!(state.get_health(s), Some(ShardHealth::Connecting));
        }
    }
}

/// A reconnect-fatal error kills the shard at once, whatever the count.
#[test]
fn reconnect_fatal_error_is_immediate() {
    let mut state = plan_pool(0, 100).unwrap().state;
    let mut runner = ShardRunner::new(4);

    let outcome = runner.on_recv_error(&mut state, true, "reconnect".to_string());
    match outcome {
        Some(GatewayError::ShardReconnectFailed { shard_id, cause }) => {
            assert_eq!(shard_id, 4);
            assert_eq!(cause, "reconnect");
        }
        other => panic!("expected ShardReconnectFailed, got {other:?}"),
    }
    assert_eq!(state.get_health(4), Some(ShardHealth::Dead));
}

/// A successful receipt resets the consecutive-error count.
#[test]
fn successful_receipt_resets_the_breaker() {
    let mut state = plan_pool(0, 100).unwrap().state;
    let mut runner = ShardRunner::new(0);

    for _ in 0..9 {
        assert!(runner.on_recv_error(&mut state, false, "transient".to_string()).is_none());
    }
    runner.on_event(&mut state, &EventInput::Other);
    assert_eq!(runner.consecutive_errors, 0);
    // Nine more errors still do not trip the breaker.
    for _ in 0..9 {
        assert!(runner.on_recv_error(&mut state, false, "transient".to_string()).is_none());
    }
}

/// A single failed publish moves `publish_failures` and `route_failures`
/// by exactly one, leaves `events_routed` alone, counts the received
/// event, and leaves the shard's health alone.
#[test]
fn publish_failure_is_isolated() {
    let mut state = plan_pool(0, 100).unwrap().state;
    let mut runner = ShardRunner::new(7);
    let mut publisher = PublisherState::new();

    runner.on_event(&mut state, &EventInput::Ready { guild_count: 1 });
    let health_before = state.get_health(7);
    let received_before = state.total_events_received();
    let routed_before = state.total_events_routed();

    let event = EventInput::MemberAdd {
        guild_id: 5,
        user_id: 6,
        username: "u".to_string(),
        discriminator: 1,
    };
    runner.on_event(&mut state, &event);

    // The publish of the serialized envelope fails; the event is dropped.
    let subject = route_subject("member.join");
    let outcome = publisher.record_publish_outcome(subject, false, "no ack".to_string());
    assert!(matches!(outcome, Err(GatewayError::NatsPublishFailed { .. })));
    state.record_route_failure(7);

    assert_eq!(publisher.publish_failures(), 1);
    assert_eq!(publisher.messages_published(), 0);
    assert_eq!(state.total_events_received(), received_before + 1);
    assert_eq!(state.total_events_routed(), routed_before);
    assert_eq!(state.entries[7].route_failures, 1);
    assert_eq!(state.get_health(7), health_before);
}

/// An acknowledged publish counts as routed.
#[test]
fn publish_success_counts_as_routed() {
    let mut state = plan_pool(0, 100).unwrap().state;
    let mut publisher = PublisherState::new();

    let outcome = publisher.record_publish_outcome(
        route_subject("guild.join"),
        true,
        String::new(),
    );
    assert!(outcome.is_ok());
    state.record_route(3);

    assert_eq!(publisher.messages_published(), 1);
    assert_eq!(publisher.publish_failures(), 0);
    assert_eq!(state.total_events_routed(), 1);
    assert_eq!(state.entries[3].events_routed, 1);
}

/// Guild accounting: `Ready` seeds the count, create increments,
/// a real delete decrements, an unavailability notice does not.
#[test]
fn guild_accounting_follows_events() {
    let mut state = plan_pool(0, 100).unwrap().state;
    let mut runner = ShardRunner::new(0);

    runner.on_event(&mut state, &EventInput::Ready { guild_count: 10 });
    assert_eq!(state.total_guilds(), 10);

    runner.on_event(&mut state, &guild_create());
    assert_eq!(state.total_guilds(), 11);

    runner.on_event(
        &mut state,
        &EventInput::GuildDelete { guild_id: 1, unavailable: Some(false) },
    );
    assert_eq!(state.total_guilds(), 10);

    runner.on_event(
        &mut state,
        &EventInput::GuildDelete { guild_id: 1, unavailable: Some(true) },
    );
    assert_eq!(state.total_guilds(), 10);
}

/// The guild count never goes below zero.
#[test]
fn guild_delete_on_empty_pool_stays_at_zero() {
    let mut state = plan_pool(0, 100).unwrap().state;
    let mut runner = ShardRunner::new(0);
    runner.on_event(
        &mut state,
        &EventInput::GuildDelete { guild_id: 1, unavailable: None },
    );
    assert_eq!(state.total_guilds(), 0);
}

/// Readiness: one ready shard suffices; none means not ready.
#[test]
fn readiness_needs_one_ready_shard() {
    let mut state = plan_pool(0, 4).unwrap().state;
    assert_eq!(state.shard_count(), 4);
    assert!(!state.is_ready());

    let response = ReadyResponse::from_state(&state, true);
    assert!(!response.ready);
    assert_eq!(response.shards_total, 4);
    assert_eq!(response.shards_ready, 0);

    state.set_health(2, ShardHealth::Ready);
    assert_eq!(state.ready_shards(), 1);
    assert!(state.is_ready());

    let response = ReadyResponse::from_state(&state, true);
    assert!(response.ready);
    assert_eq!(response.shards_ready, 1);

    // Readiness also needs the broker connection.
    let response = ReadyResponse::from_state(&state, false);
    assert!(!response.ready);
}

/// Ready and resuming count as healthy; only ready counts as ready.
#[test]
fn health_predicates_and_aggregates() {
    assert!(ShardHealth::Ready.is_healthy());
    assert!(ShardHealth::Resuming.is_healthy());
    assert!(!ShardHealth::Connecting.is_healthy());
    assert!(!ShardHealth::Disconnected.is_healthy());
    assert!(!ShardHealth::Dead.is_healthy());
    assert!(ShardHealth::Ready.is_ready());
    assert!(!ShardHealth::Resuming.is_ready());

    let mut state = plan_pool(0, 3).unwrap().state;
    state.set_health(0, ShardHealth::Ready);
    state.set_health(1, ShardHealth::Resuming);
    assert_eq!(state.ready_shards(), 1);
    assert_eq!(state.healthy_shards(), 2);
    assert!(!state.is_healthy());
    state.set_health(2, ShardHealth::Ready);
    assert!(state.is_healthy());
}

/// Counters only ever grow, across every kind of state operation.
#[test]
fn counters_are_monotone() {
    let mut state = plan_pool(0, 100).unwrap().state;
    let mut received = state.total_events_received();
    let mut routed = state.total_events_routed();
    let mut failures = state.entries[0].route_failures;

    let steps: Vec<Box<dyn Fn(&mut ShardState)>> = vec![
        Box::new(|s| s.record_event(0)),
        Box::new(|s| s.record_route(0)),
        Box::new(|s| s.record_route_failure(0)),
        Box::new(|s| s.set_health(0, ShardHealth::Ready)),
        Box::new(|s| s.set_guilds(0, 7)),
        Box::new(|s| s.record_heartbeat(0)),
        Box::new(|s| s.record_event(0)),
    ];
    for step in steps {
        step(&mut state);
        let received_now = state.total_events_received();
        let routed_now = state.total_events_routed();
        let failures_now = state.entries[0].route_failures;
        assert!(received_now >= received);
        assert!(routed_now >= routed);
        assert!(failures_now >= failures);
        received = received_now;
        routed = routed_now;
        failures = failures_now;
    }
    assert_eq!(received, 2);
    assert_eq!(routed, 1);
    assert_eq!(failures, 1);
}

/// `connected_at` is set on the first transition to `Ready` and then
/// never changes; `Resumed` also reports `Ready`.
#[test]
fn connected_at_is_recorded_once() {
    let mut state = plan_pool(0, 2).unwrap().state;
    assert_eq!(state.entries[0].connected_at, None);

    state.set_health(0, ShardHealth::Ready);
    let first = state.entries[0].connected_at;
    assert!(first.is_some());

    state.set_health(0, ShardHealth::Disconnected);
    state.set_health(0, ShardHealth::Ready);
    assert_eq!(state.entries[0].connected_at, first);

    let mut runner = ShardRunner::new(0);
    runner.on_event(&mut state, &EventInput::Resumed);
    assert_eq!(state.get_health(0), Some(ShardHealth::Ready));
    assert_eq!(state.entries[0].connected_at, first);
}

/// A heartbeat acknowledgement records a heartbeat time.
#[test]
fn heartbeat_ack_records_heartbeat() {
    let mut state = plan_pool(0, 2).unwrap().state;
    let mut runner = ShardRunner::new(1);
    assert_eq!(state.entries[1].last_heartbeat, None);
    runner.on_event(&mut state, &EventInput::HeartbeatAck);
    assert!(state.entries[1].last_heartbeat.is_some());
    assert_eq!(state.entries[1].events_received, 1);
}

/// Operations aimed at a shard outside the pool's range are ignored.
#[test]
fn out_of_range_shard_ids_are_ignored() {
    let mut state = plan_pool(0, 100).unwrap().state;
    state.record_event(25);
    state.set_health(25, ShardHealth::Ready);
    state.set_guilds(25, 100);
    assert_eq!(state.total_events_received(), 0);
    assert_eq!(state.total_guilds(), 0);
    assert_eq!(state.ready_shards(), 0);
    assert_eq!(state.get_health(25), None);
}

/// Closing the publisher only flips the connection flag.
#[test]
fn close_marks_disconnected() {
    let mut publisher = PublisherState::new();
    assert!(publisher.is_connected());
    publisher.record_publish_outcome("s".to_string(), true, String::new()).unwrap();
    publisher.close();
    assert!(!publisher.is_connected());
    assert_eq!(publisher.messages_published(), 1);
    assert_eq!(publisher.publish_failures(), 0);
}

/// Each well-known event kind counts under its own metric label.
#[test]
fn event_labels_are_stable() {
    assert_eq!(event_label(&guild_create()), "guild_create");
    assert_eq!(
        event_label(&EventInput::GuildDelete { guild_id: 1, unavailable: None }),
        "guild_delete",
    );
    assert_eq!(event_label(&EventInput::GuildUpdate { guild_id: 1 }), "guild_update");
    assert_eq!(
        event_label(&EventInput::MemberAdd {
            guild_id: 1,
            user_id: 2,
            username: "u".to_string(),
            discriminator: 0,
        }),
        "member_add",
    );
    assert_eq!(
        event_label(&EventInput::MemberRemove { guild_id: 1, user_id: 2 }),
        "member_remove",
    );
    assert_eq!(
        event_label(&EventInput::MemberUpdate {
            guild_id: 1,
            user_id: 2,
            roles: vec![],
            nick: None,
        }),
        "member_update",
    );
    assert_eq!(
        event_label(&EventInput::InteractionCreate {
            interaction_id: 1,
            interaction_kind: "Ping".to_string(),
            interaction_token: "t".to_string(),
            guild_id: None,
            channel_id: None,
            user_id: None,
        }),
        "interaction_create",
    );
    assert_eq!(event_label(&EventInput::Ready { guild_count: 0 }), "ready");
    assert_eq!(event_label(&EventInput::Resumed), "resumed");
    assert_eq!(event_label(&EventInput::HeartbeatAck), "heartbeat_ack");
    assert_eq!(event_label(&EventInput::Hello), "other");
    assert_eq!(event_label(&EventInput::Other), "other");
}

/// A pool past the end of the shard space owns no shards at all.
#[test]
fn pool_past_the_end_is_empty() {
    let plan = plan_pool(4, 100).unwrap();
    assert_eq!(plan.first_shard, plan.end_shard);
    assert_eq!(plan.state.shard_count(), 0);
    assert!(!plan.state.is_ready());
    assert!(plan.state.is_healthy());
    assert_eq!(plan.state.total_guilds(), 0);
}
