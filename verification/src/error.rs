//! The error taxonomy of the gateway core.
//!
//! Every kind carries structured context. Causes that originate outside
//! the core (a broker error, a gateway client error, a JSON error) are
//! carried as their rendered text. Each kind maps to exactly one stable
//! metrics label, and the labels are proved mutually distinct.

use vstd::prelude::*;

use crate::text::{spec_dec, u64_to_string};

verus! {

/// Gateway domain errors.
#[derive(Debug, Clone, PartialEq, Eq)]
pub enum GatewayError {
    /// Shard exceeded the consecutive receive-error threshold.
    ShardCircuitBroken { shard_id: u64, count: u32, max: u32 },
    /// Shard reconnection failed (fatal; the shard is marked dead).
    ShardReconnectFailed { shard_id: u64, cause: String },
    /// Broker publish (submit or acknowledgement) failed for a subject.
    NatsPublishFailed { subject: String, cause: String },
    /// Initial broker connection failed.
    NatsConnectionFailed(String),
    /// Envelope serialization failed.
    SerializationFailed { event_type: String, shard_id: u64, cause: String },
    /// Configuration error (bad or missing input).
    Config(String),
    /// A shard count or shard ID does not fit in 32 bits.
    ShardIdOverflow { value: u64 },
}

/// The stable metrics label of each error kind.
pub open spec fn spec_label(e: GatewayError) -> Seq<char> {
    match e {
        GatewayError::ShardCircuitBroken { .. } => "circuit_broken"@,
        GatewayError::ShardReconnectFailed { .. } => "reconnect_failed"@,
        GatewayError::NatsPublishFailed { .. } => "nats_publish"@,
        GatewayError::NatsConnectionFailed(..) => "nats_connection"@,
        GatewayError::SerializationFailed { .. } => "serialization"@,
        GatewayError::Config(..) => "config"@,
        GatewayError::ShardIdOverflow { .. } => "shard_overflow"@,
    }
}

/// The set of all metrics labels.
pub open spec fn spec_all_labels() -> Set<Seq<char>> {
    set![
        "circuit_broken"@,
        "reconnect_failed"@,
        "nats_publish"@,
        "nats_connection"@,
        "serialization"@,
        "config"@,
        "shard_overflow"@,
    ]
}

/// The diagnostic message of each error kind.
pub open spec fn spec_message(e: GatewayError) -> Seq<char> {
    match e {
        GatewayError::ShardCircuitBroken { shard_id, count, max } =>
            "shard "@ + spec_dec(shard_id as int)
                + " exceeded consecutive error threshold ("@ + spec_dec(count as int)
                + "/"@ + spec_dec(max as int) + ")"@,
        GatewayError::ShardReconnectFailed { shard_id, cause } =>
            "shard "@ + spec_dec(shard_id as int) + " reconnection failed"@,
        GatewayError::NatsPublishFailed { subject, cause } =>
            "NATS publish failed for subject '"@ + subject@ + "'"@,
        GatewayError::NatsConnectionFailed(..) => "NATS connection failed"@,
        GatewayError::SerializationFailed { event_type, shard_id, cause } =>
            "event serialization failed for "@ + event_type@ + " on shard "@
                + spec_dec(shard_id as int),
        GatewayError::Config(msg) => "configuration error: "@ + msg@,
        GatewayError::ShardIdOverflow { value } =>
            "shard ID overflow: "@ + spec_dec(value as int) + " exceeds u32::MAX"@,
    }
}

impl GatewayError {
    /// The stable label for metrics tagging, one per kind.
    pub fn error_type_label(&self) -> (r: &'static str)
        ensures
            r@ == spec_label(*self),
    {
        match self {
            GatewayError::ShardCircuitBroken { .. } => "circuit_broken",
            GatewayError::ShardReconnectFailed { .. } => "reconnect_failed",
            GatewayError::NatsPublishFailed { .. } => "nats_publish",
            GatewayError::NatsConnectionFailed(..) => "nats_connection",
            GatewayError::SerializationFailed { .. } => "serialization",
            GatewayError::Config(..) => "config",
            GatewayError::ShardIdOverflow { .. } => "shard_overflow",
        }
    }

    /// The human-readable message for this error.
    pub fn message(&self) -> (r: String)
        ensures
            r@ == spec_message(*self),
    {
        match self {
            GatewayError::ShardCircuitBroken { shard_id, count, max } => {
                let mut s = String::from_str("shard ");
                s.append(u64_to_string(*shard_id).as_str());
                s.append(" exceeded consecutive error threshold (");
                s.append(u64_to_string(*count as u64).as_str());
                s.append("/");
                s.append(u64_to_string(*max as u64).as_str());
                s.append(")");
                s
            },
            GatewayError::ShardReconnectFailed { shard_id, .. } => {
                let mut s = String::from_str("shard ");
                s.append(u64_to_string(*shard_id).as_str());
                s.append(" reconnection failed");
                s
            },
            GatewayError::NatsPublishFailed { subject, .. } => {
                let mut s = String::from_str("NATS publish failed for subject '");
                s.append(subject.as_str());
                s.append("'");
                s
            },
            GatewayError::NatsConnectionFailed(..) => String::from_str("NATS connection failed"),
            GatewayError::SerializationFailed { event_type, shard_id, .. } => {
                let mut s = String::from_str("event serialization failed for ");
                s.append(event_type.as_str());
                s.append(" on shard ");
                s.append(u64_to_string(*shard_id).as_str());
                s
            },
            GatewayError::Config(msg) => {
                let mut s = String::from_str("configuration error: ");
                s.append(msg.as_str());
                s
            },
            GatewayError::ShardIdOverflow { value } => {
                let mut s = String::from_str("shard ID overflow: ");
                s.append(u64_to_string(*value).as_str());
                s.append(" exceeds u32::MAX");
                s
            },
        }
    }
}

/// The metrics labels are mutually distinct: the label set has exactly
/// as many members as the taxonomy has kinds, and every error's label
/// is one of them.
pub proof fn lemma_error_labels_distinct()
    ensures
        spec_all_labels().len() == 7,
        forall|e: GatewayError| spec_all_labels().contains(#[trigger] spec_label(e)),
{
    reveal_strlit("circuit_broken");
    reveal_strlit("reconnect_failed");
    reveal_strlit("nats_publish");
    reveal_strlit("nats_connection");
    reveal_strlit("serialization");
    reveal_strlit("config");
    reveal_strlit("shard_overflow");
    assert("circuit_broken"@.len() == 14);
    assert("reconnect_failed"@.len() == 16);
    assert("nats_publish"@.len() == 12);
    assert("nats_connection"@.len() == 15);
    assert("serialization"@.len() == 13);
    assert("config"@.len() == 6);
    assert("shard_overflow"@.len() == 14);
    // The two labels of equal length differ in their first character.
    assert("circuit_broken"@[0] == 'c');
    assert("shard_overflow"@[0] == 's');
    assert(spec_all_labels().len() == 7);
}

} // verus!
