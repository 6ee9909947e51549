use gateway_core::config::{GatewayConfig, INTENT_GUILDS, INTENT_GUILD_MEMBERS, INTENT_MESSAGE_CONTENT};
use gateway_core::error::GatewayError;
use gateway_core::pool::{plan_pool, shard_range, SHARDS_PER_POOL};

#[test]
fn test_shards_per_pool_constant() {
    assert_eq!(SHARDS_PER_POOL, 25);
}

#[test]
fn test_shard_range_calculation() {
    // Pool 0: shards 0-24
    let pool_id = 0u64;
    let total_shards = 100u64;
    let start = pool_id * SHARDS_PER_POOL;
    let end = ((pool_id + 1) * SHARDS_PER_POOL).min(total_shards);
    assert_eq!(start, 0);
    assert_eq!(end, 25);

    // Pool 3: shards 75-99
    let pool_id = 3u64;
    let start = pool_id * SHARDS_PER_POOL;
    let end = ((pool_id + 1) * SHARDS_PER_POOL).min(total_shards);
    assert_eq!(start, 75);
    assert_eq!(end, 100);
}

#[test]
fn shard_range_matches_formula() {
    assert_eq!(shard_range(0, 100), (0, 25));
    assert_eq!(shard_range(3, 100), (75, 100));
    // Pool 4 of 100 shards owns nothing: the range is empty.
    let (start, end) = shard_range(4, 100);
    assert_eq!(start, end);
    assert_eq!(shard_range(0, 10), (0, 10));
}

#[test]
fn plan_pool_rejects_total_shards_over_32_bits() {
    let too_many = 1u64 << 32;
    match plan_pool(0, too_many) {
        Err(GatewayError::ShardIdOverflow { value }) => assert_eq!(value, too_many),
        _ => panic!("expected ShardIdOverflow"),
    }

    let just_fits = (1u64 << 32) - 1;
    let plan = plan_pool(0, just_fits).expect("u32::MAX total shards must be accepted");
    assert_eq!(plan.pool_id, 0);
    assert_eq!(plan.total_shards, just_fits);
    assert_eq!((plan.first_shard, plan.end_shard), (0, 25));
}

#[test]
fn plan_pool_seeds_exactly_the_range() {
    let plan = plan_pool(3, 100).expect("valid config");
    assert_eq!((plan.first_shard, plan.end_shard), (75, 100));
    assert_eq!(plan.state.pool_id(), 3);
    assert_eq!(plan.state.total_shards(), 100);
    assert_eq!(plan.state.shard_count(), 25);
    // Every ID in the range is present, nothing outside it.
    assert!(plan.state.get_health(74).is_none());
    assert!(plan.state.get_health(75).is_some());
    assert!(plan.state.get_health(99).is_some());
    assert!(plan.state.get_health(100).is_none());
}

#[test]
fn test_intents_are_minimal() {
    let intents = GatewayConfig::intents();

    // Should have GUILDS and GUILD_MEMBERS
    assert!(intents & INTENT_GUILDS != 0);
    assert!(intents & INTENT_GUILD_MEMBERS != 0);

    // Should NOT have message content (privileged, not needed)
    assert!(intents & INTENT_MESSAGE_CONTENT == 0);
}
