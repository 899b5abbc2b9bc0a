#[allow(unused_imports)]
use bounty_escrow::analytics::ANALYTICS_VERSION_V1;

#[test]
fn test_reentrancy_guard_model_documentation() {
    // This test documents the reentrancy guard model and guarantees

    // GUARANTEE 1: Sequential calls are always allowed
    // The guard is cleared after each successful operation, allowing
    // the next operation to proceed normally.

    // GUARANTEE 2: Nested/reentrant calls are always blocked
    // If a function is currently executing (guard is set), any attempt
    // to call another protected function will panic.

    // GUARANTEE 3: Cross-function protection
    // The guard protects across all sensitive functions (single_payout,
    // batch_payout, trigger_releases, etc.), not just same-function calls.

    // GUARANTEE 4: Automatic cleanup on panic
    // In Soroban, if a function panics, all state changes are rolled back,
    // including the guard flag. This prevents the guard from being stuck.

    // GUARANTEE 5: No deadlocks
    // Since the guard is automatically cleared on panic and explicitly
    // cleared on success, there's no risk of permanent lockout.

    assert!(true, "Documentation test - see comments for guarantees");
}
