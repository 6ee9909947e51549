use gateway_core::error::GatewayError;

fn test_cause() -> String {
    "test".to_string()
}

#[test]
fn every_variant_has_distinct_error_type_label() {
    let labels = [
        GatewayError::ShardCircuitBroken { shard_id: 0, count: 10, max: 10 }.error_type_label(),
        GatewayError::ShardReconnectFailed { shard_id: 0, cause: test_cause() }
            .error_type_label(),
        GatewayError::NatsPublishFailed { subject: "test".to_string(), cause: test_cause() }
            .error_type_label(),
        GatewayError::NatsConnectionFailed(test_cause()).error_type_label(),
        GatewayError::SerializationFailed {
            event_type: "test".to_string(),
            shard_id: 0,
            cause: "invalid".to_string(),
        }
        .error_type_label(),
        GatewayError::Config("test".to_string()).error_type_label(),
        GatewayError::ShardIdOverflow { value: u64::MAX }.error_type_label(),
    ];

    // All labels are unique
    let mut unique = labels.to_vec();
    unique.sort();
    unique.dedup();
    assert_eq!(labels.len(), unique.len(), "Duplicate error_type_label found");
}

#[test]
fn error_messages_contain_context() {
    let err = GatewayError::ShardCircuitBroken { shard_id: 3, count: 10, max: 10 };
    let msg = err.message();
    assert!(msg.contains("shard 3"), "message should contain shard_id");
    assert!(msg.contains("10/10"), "message should contain count/max");

    let err = GatewayError::NatsPublishFailed {
        subject: "commands.interaction".to_string(),
        cause: test_cause(),
    };
    assert!(err.message().contains("commands.interaction"));

    let err = GatewayError::ShardIdOverflow { value: u64::MAX };
    assert!(err.message().contains(&u64::MAX.to_string()));
}

#[test]
fn config_error_preserves_message() {
    let err = GatewayError::Config("DISCORD_TOKEN must be set".to_string());
    assert_eq!(err.message(), "configuration error: DISCORD_TOKEN must be set");
}

#[test]
fn shard_id_overflow_at_boundary() {
    // u32::MAX should NOT overflow
    let val = u32::MAX as u64;
    assert!(u32::try_from(val).is_ok());

    // u32::MAX + 1 SHOULD overflow
    let val = u32::MAX as u64 + 1;
    assert!(u32::try_from(val).is_err());
}

#[test]
fn every_variant_message_is_exact() {
    let err = GatewayError::ShardCircuitBroken { shard_id: 7, count: 10, max: 10 };
    assert_eq!(err.message(), "shard 7 exceeded consecutive error threshold (10/10)");
    assert_eq!(err.error_type_label(), "circuit_broken");

    let err = GatewayError::ShardReconnectFailed { shard_id: 2, cause: "socket".to_string() };
    assert_eq!(err.message(), "shard 2 reconnection failed");
    assert_eq!(err.error_type_label(), "reconnect_failed");

    let err = GatewayError::NatsPublishFailed {
        subject: "events.guild.join".to_string(),
        cause: "timeout".to_string(),
    };
    assert_eq!(err.message(), "NATS publish failed for subject 'events.guild.join'");
    assert_eq!(err.error_type_label(), "nats_publish");

    let err = GatewayError::NatsConnectionFailed("refused".to_string());
    assert_eq!(err.message(), "NATS connection failed");
    assert_eq!(err.error_type_label(), "nats_connection");

    let err = GatewayError::SerializationFailed {
        event_type: "guild.join".to_string(),
        shard_id: 4,
        cause: "oops".to_string(),
    };
    assert_eq!(err.message(), "event serialization failed for guild.join on shard 4");
    assert_eq!(err.error_type_label(), "serialization");

    let err = GatewayError::Config("bad".to_string());
    assert_eq!(err.error_type_label(), "config");

    let err = GatewayError::ShardIdOverflow { value: 4294967296 };
    assert_eq!(err.message(), "shard ID overflow: 4294967296 exceeds u32::MAX");
    assert_eq!(err.error_type_label(), "shard_overflow");
}
