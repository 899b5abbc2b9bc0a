use bounty_escrow::analytics::{
    init_bounty_analytics, update_analytics_on_refund, update_analytics_on_release,
    AnalyticsKey, AnalyticsSnapshot, BountyAnalytics, ContractAnalytics, ANALYTICS_VERSION_V1,
};

#[test]
fn test_bounty_analytics_initialization() {
    let bounty_id = 1u64;
    let amount = 1000i128;
    let timestamp = 100u64;

    let key = AnalyticsKey::BountyMetrics(bounty_id);
    let stored = Some(init_bounty_analytics(amount, timestamp));
    assert_eq!(key, AnalyticsKey::BountyMetrics(1));

    let analytics = stored;
    assert!(analytics.is_some());

    let analytics = analytics.unwrap();
    assert_eq!(analytics.total_amount_locked, amount);
    assert_eq!(analytics.total_amount_released, 0);
    assert_eq!(analytics.total_amount_refunded, 0);
    assert_eq!(analytics.remaining_amount, amount);
    assert_eq!(analytics.created_at, timestamp);
    assert_eq!(analytics.last_updated, timestamp);
    assert_eq!(analytics.partial_releases_count, 0);
    assert_eq!(analytics.partial_refunds_count, 0);
}

#[test]
fn test_analytics_on_release() {
    let amount = 1000i128;

    let mut stored = Some(init_bounty_analytics(amount, 100));
    update_analytics_on_release(&mut stored, 500, 200);

    let analytics = stored.unwrap();
    assert_eq!(analytics.total_amount_released, 500);
    assert_eq!(analytics.remaining_amount, 500);
    assert_eq!(analytics.partial_releases_count, 1);
    assert_eq!(analytics.last_updated, 200);
}

#[test]
fn test_analytics_on_refund() {
    let amount = 1000i128;

    let mut stored = Some(init_bounty_analytics(amount, 100));
    update_analytics_on_refund(&mut stored, 300, 200);

    let analytics = stored.unwrap();
    assert_eq!(analytics.total_amount_refunded, 300);
    assert_eq!(analytics.remaining_amount, 700);
    assert_eq!(analytics.partial_refunds_count, 1);
    assert_eq!(analytics.last_updated, 200);
}

#[test]
fn test_analytics_lifecycle() {
    let amount = 1000i128;

    // Initialize
    let mut stored = Some(init_bounty_analytics(amount, 100));

    // Partial release
    update_analytics_on_release(&mut stored, 300, 200);
    let analytics = stored.unwrap();
    assert_eq!(analytics.remaining_amount, 700);
    assert_eq!(analytics.total_amount_released, 300);

    // Another release
    update_analytics_on_release(&mut stored, 300, 300);
    let analytics = stored.unwrap();
    assert_eq!(analytics.remaining_amount, 400);
    assert_eq!(analytics.total_amount_released, 600);
    assert_eq!(analytics.partial_releases_count, 2);

    // Final refund for remaining
    update_analytics_on_refund(&mut stored, 400, 400);
    let analytics = stored.unwrap();
    assert_eq!(analytics.remaining_amount, 0);
    assert_eq!(analytics.total_amount_refunded, 400);
    assert_eq!(analytics.partial_refunds_count, 1);
}

#[test]
fn test_get_nonexistent_bounty_analytics() {
    let _key = AnalyticsKey::BountyMetrics(999u64);
    let mut stored: Option<BountyAnalytics> = None;
    update_analytics_on_release(&mut stored, 500, 200);
    update_analytics_on_refund(&mut stored, 300, 300);
    assert!(stored.is_none());
}

#[test]
fn init_overwrites_every_field() {
    let a = init_bounty_analytics(-7, u64::MAX);
    assert_eq!(
        a,
        BountyAnalytics {
            total_amount_locked: -7,
            total_amount_released: 0,
            total_amount_refunded: 0,
            remaining_amount: -7,
            created_at: u64::MAX,
            last_updated: u64::MAX,
            partial_releases_count: 0,
            partial_refunds_count: 0,
        }
    );
}

#[test]
fn release_keeps_locked_amount_and_creation_time() {
    let mut stored = Some(init_bounty_analytics(5000, 10));
    update_analytics_on_release(&mut stored, 1200, 20);
    update_analytics_on_refund(&mut stored, 800, 30);
    let a = stored.unwrap();
    assert_eq!(a.total_amount_locked, 5000);
    assert_eq!(a.created_at, 10);
    assert_eq!(a.last_updated, 30);
    assert_eq!(
        a.total_amount_locked,
        a.total_amount_released + a.total_amount_refunded + a.remaining_amount
    );
}

#[test]
fn release_beyond_remaining_goes_negative() {
    let mut stored = Some(init_bounty_analytics(100, 0));
    update_analytics_on_release(&mut stored, 500, 1);
    let a = stored.unwrap();
    assert_eq!(a.remaining_amount, -400);
    assert_eq!(a.total_amount_released, 500);
}

#[test]
fn remaining_saturates_at_lower_bound() {
    let mut stored = Some(init_bounty_analytics(i128::MIN + 5, 0));
    update_analytics_on_release(&mut stored, 10, 1);
    let a = stored.unwrap();
    assert_eq!(a.remaining_amount, i128::MIN);
    assert_eq!(a.total_amount_released, 10);
}

#[test]
fn remaining_saturates_at_upper_bound() {
    let mut stored = Some(init_bounty_analytics(i128::MAX - 1, 0));
    update_analytics_on_refund(&mut stored, -3, 1);
    let a = stored.unwrap();
    assert_eq!(a.remaining_amount, i128::MAX);
    assert_eq!(a.total_amount_refunded, -3);
    assert_eq!(a.partial_refunds_count, 1);
}

#[test]
fn remaining_reaches_exact_bound_without_clamping() {
    let mut stored = Some(init_bounty_analytics(i128::MIN + 10, 0));
    update_analytics_on_release(&mut stored, 10, 1);
    assert_eq!(stored.unwrap().remaining_amount, i128::MIN);
}

#[test]
fn release_check_refuses_overflow() {
    let mut a = init_bounty_analytics(0, 0);
    assert!(a.can_record_release(i128::MAX));
    a.total_amount_released = i128::MAX;
    assert!(!a.can_record_release(1));
    assert!(a.can_record_release(0));
    a.total_amount_released = 0;
    a.partial_releases_count = u32::MAX;
    assert!(!a.can_record_release(1));
}

#[test]
fn refund_check_refuses_overflow() {
    let mut a = init_bounty_analytics(0, 0);
    a.total_amount_refunded = i128::MIN;
    assert!(!a.can_record_refund(-1));
    assert!(a.can_record_refund(1));
    a.total_amount_refunded = 0;
    a.partial_refunds_count = u32::MAX - 1;
    assert!(a.can_record_refund(5));
    a.partial_refunds_count = u32::MAX;
    assert!(!a.can_record_refund(5));
}

#[test]
fn counters_count_each_transition() {
    let mut stored = Some(init_bounty_analytics(10_000, 1));
    for i in 0..5u64 {
        update_analytics_on_release(&mut stored, 100, 2 + i);
    }
    for i in 0..3u64 {
        update_analytics_on_refund(&mut stored, 200, 10 + i);
    }
    let a = stored.unwrap();
    assert_eq!(a.partial_releases_count, 5);
    assert_eq!(a.partial_refunds_count, 3);
    assert_eq!(a.total_amount_released, 500);
    assert_eq!(a.total_amount_refunded, 600);
    assert_eq!(a.remaining_amount, 8_900);
    assert_eq!(a.last_updated, 12);
}

#[test]
fn snapshot_carries_version_and_metrics() {
    let metrics = ContractAnalytics {
        active_bounty_count: 3,
        released_bounty_count: 1,
        refunded_bounty_count: 0,
        total_locked: 6000,
        total_released: 1500,
        total_refunded: 0,
        average_bounty_amount: 2000,
        snapshot_timestamp: 42,
    };
    let snap = AnalyticsSnapshot { version: ANALYTICS_VERSION_V1, metrics };
    assert_eq!(snap.version, 1);
    assert_eq!(snap.metrics, metrics);
}
