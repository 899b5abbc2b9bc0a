//! Bounty escrow analytics: the records kept per bounty and contract-wide,
//! and the verified rules that create and update per-bounty records.

use vstd::prelude::*;

verus! {

/// Version tag carried by every analytics event.
pub const ANALYTICS_VERSION_V1: u32 = 1;

/// Compact analytics record for bounty-level summaries.
#[derive(Clone, Copy, Debug, PartialEq, Eq, Structural)]
pub struct BountyAnalytics {
    /// Total amount originally locked in this bounty
    pub total_amount_locked: i128,
    /// Total amount released to contributors
    pub total_amount_released: i128,
    /// Total amount refunded to the original depositor
    pub total_amount_refunded: i128,
    /// Current remaining amount in escrow
    pub remaining_amount: i128,
    /// Bounty creation timestamp
    pub created_at: u64,
    /// Timestamp of the last state transition
    pub last_updated: u64,
    /// Number of partial releases performed
    pub partial_releases_count: u32,
    /// Number of partial refunds performed
    pub partial_refunds_count: u32,
}

/// Contract-wide analytics snapshot.
#[derive(Clone, Copy, Debug, PartialEq, Eq, Structural)]
pub struct ContractAnalytics {
    /// Total number of active bounties (Locked or Partially Refunded)
    pub active_bounty_count: u32,
    /// Total number of released bounties
    pub released_bounty_count: u32,
    /// Total number of refunded bounties
    pub refunded_bounty_count: u32,
    /// Total amount currently locked in the contract
    pub total_locked: i128,
    /// Total amount released to all contributors
    pub total_released: i128,
    /// Total amount refunded to all depositors
    pub total_refunded: i128,
    /// Average bounty amount
    pub average_bounty_amount: i128,
    /// Timestamp of this snapshot
    pub snapshot_timestamp: u64,
}

/// Analytics snapshot event for contract-wide metrics.
#[derive(Clone, Copy, Debug)]
pub struct AnalyticsSnapshot {
    /// Analytics version
    pub version: u32,
    /// Contract-wide metrics
    pub metrics: ContractAnalytics,
}

/// Storage keys for analytics.
#[derive(Clone, Copy, Debug, PartialEq, Eq, Structural)]
pub enum AnalyticsKey {
    /// Per-bounty analytics: `BountyMetrics(bounty_id)` holds a `BountyAnalytics`
    BountyMetrics(u64),
}

/// `a - b` on `i128`, clamped to the bounds of `i128` where it leaves them.
pub open spec fn saturating_sub_i128(a: i128, b: i128) -> i128 {
    let d = a - b;
    if d > i128::MAX {
        i128::MAX
    } else if d < i128::MIN {
        i128::MIN
    } else {
        d as i128
    }
}

/// The record that locking `amount` at `timestamp` starts a bounty with.
pub open spec fn locked_record(amount: i128, timestamp: u64) -> BountyAnalytics {
    BountyAnalytics {
        total_amount_locked: amount,
        total_amount_released: 0,
        total_amount_refunded: 0,
        remaining_amount: amount,
        created_at: timestamp,
        last_updated: timestamp,
        partial_releases_count: 0,
        partial_refunds_count: 0,
    }
}

impl BountyAnalytics {
    /// Everything locked is accounted for: released, refunded or still held.
    pub open spec fn is_balanced(self) -> bool {
        self.total_amount_locked == self.total_amount_released + self.total_amount_refunded
            + self.remaining_amount
    }

    /// Recording a release of `amount` overflows neither the released total
    /// nor the release counter.
    pub open spec fn release_fits(self, amount: i128) -> bool {
        &&& i128::MIN <= self.total_amount_released + amount <= i128::MAX
        &&& self.partial_releases_count < u32::MAX
    }

    /// Recording a refund of `amount` overflows neither the refunded total
    /// nor the refund counter.
    pub open spec fn refund_fits(self, amount: i128) -> bool {
        &&& i128::MIN <= self.total_amount_refunded + amount <= i128::MAX
        &&& self.partial_refunds_count < u32::MAX
    }

    /// Taking `amount` out of the remaining amount needs no clamping.
    pub open spec fn takes_exactly(self, amount: i128) -> bool {
        i128::MIN <= self.remaining_amount - amount <= i128::MAX
    }

    /// The record after a release of `amount` at `timestamp`.
    pub open spec fn after_release(self, amount: i128, timestamp: u64) -> BountyAnalytics {
        BountyAnalytics {
            total_amount_released: (self.total_amount_released + amount) as i128,
            remaining_amount: saturating_sub_i128(self.remaining_amount, amount),
            last_updated: timestamp,
            partial_releases_count: (self.partial_releases_count + 1) as u32,
            ..self
        }
    }

    /// The record after a refund of `amount` at `timestamp`.
    pub open spec fn after_refund(self, amount: i128, timestamp: u64) -> BountyAnalytics {
        BountyAnalytics {
            total_amount_refunded: (self.total_amount_refunded + amount) as i128,
            remaining_amount: saturating_sub_i128(self.remaining_amount, amount),
            last_updated: timestamp,
            partial_refunds_count: (self.partial_refunds_count + 1) as u32,
            ..self
        }
    }

    /// Whether a release of `amount` can be recorded on this record.
    pub fn can_record_release(&self, amount: i128) -> (fits: bool)
        ensures
            fits == self.release_fits(amount),
            fits == (i128::MIN <= self.total_amount_released + amount <= i128::MAX
                && self.partial_releases_count < u32::MAX),
    {
        self.total_amount_released.checked_add(amount).is_some()
            && self.partial_releases_count < u32::MAX
    }

    /// Whether a refund of `amount` can be recorded on this record.
    pub fn can_record_refund(&self, amount: i128) -> (fits: bool)
        ensures
            fits == self.refund_fits(amount),
            fits == (i128::MIN <= self.total_amount_refunded + amount <= i128::MAX
                && self.partial_refunds_count < u32::MAX),
    {
        self.total_amount_refunded.checked_add(amount).is_some()
            && self.partial_refunds_count < u32::MAX
    }
}

/// A state transition recorded against a bounty's analytics.
pub enum AnalyticsUpdate {
    /// Funds released to a contributor
    Release { amount: i128, timestamp: u64 },
    /// Funds refunded to the depositor
    Refund { amount: i128, timestamp: u64 },
}

impl AnalyticsUpdate {
    /// The timestamp the transition happened at.
    pub open spec fn at(self) -> u64 {
        match self {
            AnalyticsUpdate::Release { timestamp, .. } => timestamp,
            AnalyticsUpdate::Refund { timestamp, .. } => timestamp,
        }
    }
}

impl BountyAnalytics {
    /// The record after one transition.
    pub open spec fn apply(self, update: AnalyticsUpdate) -> BountyAnalytics {
        match update {
            AnalyticsUpdate::Release { amount, timestamp } => self.after_release(amount, timestamp),
            AnalyticsUpdate::Refund { amount, timestamp } => self.after_refund(amount, timestamp),
        }
    }

    /// The transition can be recorded without overflow and takes its amount
    /// out of the remaining amount without clamping.
    pub open spec fn update_fits(self, update: AnalyticsUpdate) -> bool {
        match update {
            AnalyticsUpdate::Release { amount, .. } => self.release_fits(amount) && self.takes_exactly(amount),
            AnalyticsUpdate::Refund { amount, .. } => self.refund_fits(amount) && self.takes_exactly(amount),
        }
    }
}

/// The record after the transitions `updates`, in order.
pub open spec fn apply_all(start: BountyAnalytics, updates: Seq<AnalyticsUpdate>) -> BountyAnalytics
    decreases updates.len(),
{
    if updates.len() == 0 {
        start
    } else {
        apply_all(start, updates.drop_last()).apply(updates.last())
    }
}

/// Each of `updates` fits the record it is applied to.
pub open spec fn all_fit(start: BountyAnalytics, updates: Seq<AnalyticsUpdate>) -> bool
    decreases updates.len(),
{
    if updates.len() == 0 {
        true
    } else {
        all_fit(start, updates.drop_last()) && apply_all(start, updates.drop_last()).update_fits(
            updates.last(),
        )
    }
}

/// Sum of the released amounts in `updates`.
pub open spec fn released_sum(updates: Seq<AnalyticsUpdate>) -> int
    decreases updates.len(),
{
    if updates.len() == 0 {
        0
    } else {
        released_sum(updates.drop_last()) + match updates.last() {
            AnalyticsUpdate::Release { amount, .. } => amount as int,
            AnalyticsUpdate::Refund { .. } => 0,
        }
    }
}

/// Sum of the refunded amounts in `updates`.
pub open spec fn refunded_sum(updates: Seq<AnalyticsUpdate>) -> int
    decreases updates.len(),
{
    if updates.len() == 0 {
        0
    } else {
        refunded_sum(updates.drop_last()) + match updates.last() {
            AnalyticsUpdate::Release { .. } => 0,
            AnalyticsUpdate::Refund { amount, .. } => amount as int,
        }
    }
}

/// Number of releases in `updates`.
pub open spec fn release_count(updates: Seq<AnalyticsUpdate>) -> int
    decreases updates.len(),
{
    if updates.len() == 0 {
        0
    } else {
        release_count(updates.drop_last()) + if updates.last() is Release {
            1int
        } else {
            0int
        }
    }
}

/// Number of refunds in `updates`.
pub open spec fn refund_count(updates: Seq<AnalyticsUpdate>) -> int
    decreases updates.len(),
{
    if updates.len() == 0 {
        0
    } else {
        refund_count(updates.drop_last()) + if updates.last() is Refund {
            1int
        } else {
            0int
        }
    }
}

/// A lock starts the record with the whole amount held, nothing released or
/// refunded, no transitions counted, and both timestamps at the lock time.
pub proof fn lemma_locked_record_fields(amount: i128, timestamp: u64)
    ensures
        locked_record(amount, timestamp).total_amount_locked == amount,
        locked_record(amount, timestamp).total_amount_released == 0,
        locked_record(amount, timestamp).total_amount_refunded == 0,
        locked_record(amount, timestamp).remaining_amount == amount,
        locked_record(amount, timestamp).created_at == timestamp,
        locked_record(amount, timestamp).last_updated == timestamp,
        locked_record(amount, timestamp).last_updated == locked_record(amount, timestamp).created_at,
        locked_record(amount, timestamp).partial_releases_count == 0,
        locked_record(amount, timestamp).partial_refunds_count == 0,
{
}

/// A release can be recorded exactly when adding it to the released total
/// stays within `i128` and the release counter has room; nothing else about
/// the record matters.
pub proof fn lemma_release_fits_iff(a: BountyAnalytics, amount: i128)
    ensures
        a.release_fits(amount) <==> (i128::MIN <= a.total_amount_released + amount <= i128::MAX
            && a.partial_releases_count < u32::MAX),
{
}

/// Two records that agree on the released total and the release counter
/// agree on whether a release can be recorded.
pub proof fn lemma_release_fits_depends_on_release_side(
    a: BountyAnalytics,
    b: BountyAnalytics,
    amount: i128,
)
    requires
        a.total_amount_released == b.total_amount_released,
        a.partial_releases_count == b.partial_releases_count,
    ensures
        a.release_fits(amount) == b.release_fits(amount),
{
}

/// A refund can be recorded exactly when adding it to the refunded total
/// stays within `i128` and the refund counter has room; nothing else about
/// the record matters.
pub proof fn lemma_refund_fits_iff(a: BountyAnalytics, amount: i128)
    ensures
        a.refund_fits(amount) <==> (i128::MIN <= a.total_amount_refunded + amount <= i128::MAX
            && a.partial_refunds_count < u32::MAX),
{
}

/// Two records that agree on the refunded total and the refund counter
/// agree on whether a refund can be recorded, whatever was released.
pub proof fn lemma_refund_fits_depends_on_refund_side(
    a: BountyAnalytics,
    b: BountyAnalytics,
    amount: i128,
)
    requires
        a.total_amount_refunded == b.total_amount_refunded,
        a.partial_refunds_count == b.partial_refunds_count,
    ensures
        a.refund_fits(amount) == b.refund_fits(amount),
{
}

/// A release adds its amount to the released total, takes it out of the
/// remaining amount (clamped to the `i128` bounds), stamps the record with its
/// time, counts one more release, and changes nothing else.
pub proof fn lemma_after_release_fields(a: BountyAnalytics, amount: i128, timestamp: u64)
    requires
        a.release_fits(amount),
    ensures
        a.after_release(amount, timestamp).total_amount_released == a.total_amount_released + amount,
        a.after_release(amount, timestamp).remaining_amount == (if a.remaining_amount - amount
            > i128::MAX {
            i128::MAX as int
        } else if a.remaining_amount - amount < i128::MIN {
            i128::MIN as int
        } else {
            a.remaining_amount - amount
        }),
        a.after_release(amount, timestamp).last_updated == timestamp,
        a.after_release(amount, timestamp).partial_releases_count == a.partial_releases_count + 1,
        a.after_release(amount, timestamp).total_amount_locked == a.total_amount_locked,
        a.after_release(amount, timestamp).total_amount_refunded == a.total_amount_refunded,
        a.after_release(amount, timestamp).created_at == a.created_at,
        a.after_release(amount, timestamp).partial_refunds_count == a.partial_refunds_count,
{
}

/// A refund adds its amount to the refunded total, takes it out of the
/// remaining amount (clamped to the `i128` bounds), stamps the record with its
/// time, counts one more refund, and changes nothing else.
pub proof fn lemma_after_refund_fields(a: BountyAnalytics, amount: i128, timestamp: u64)
    requires
        a.refund_fits(amount),
    ensures
        a.after_refund(amount, timestamp).total_amount_refunded == a.total_amount_refunded + amount,
        a.after_refund(amount, timestamp).remaining_amount == (if a.remaining_amount - amount
            > i128::MAX {
            i128::MAX as int
        } else if a.remaining_amount - amount < i128::MIN {
            i128::MIN as int
        } else {
            a.remaining_amount - amount
        }),
        a.after_refund(amount, timestamp).last_updated == timestamp,
        a.after_refund(amount, timestamp).partial_refunds_count == a.partial_refunds_count + 1,
        a.after_refund(amount, timestamp).total_amount_locked == a.total_amount_locked,
        a.after_refund(amount, timestamp).total_amount_released == a.total_amount_released,
        a.after_refund(amount, timestamp).created_at == a.created_at,
        a.after_refund(amount, timestamp).partial_releases_count == a.partial_releases_count,
{
}

/// Locking and then recording any release that fits the released total:
/// the release is always recordable on a fresh record, and two releases in a
/// row are recordable whenever their sum and each prefix stay in range.
pub proof fn lemma_fresh_record_accepts_updates(
    amount: i128,
    timestamp: u64,
    first: i128,
    second: i128,
    t1: u64,
)
    requires
        i128::MIN <= first + second <= i128::MAX,
    ensures
        locked_record(amount, timestamp).release_fits(first),
        locked_record(amount, timestamp).refund_fits(first),
        locked_record(amount, timestamp).after_release(first, t1).release_fits(second),
        locked_record(amount, timestamp).after_release(first, t1).refund_fits(second),
        locked_record(amount, timestamp).after_refund(first, t1).refund_fits(second),
        locked_record(amount, timestamp).after_refund(first, t1).release_fits(second),
{
}

/// Locking establishes the balance: everything locked is still held.
pub proof fn lemma_locked_record_balanced(amount: i128, timestamp: u64)
    ensures
        locked_record(amount, timestamp).is_balanced(),
{
}

/// A release that needs no clamping keeps a balanced record balanced, and
/// leaves the locked amount, the creation time and the refund side alone.
pub proof fn lemma_release_keeps_balance(a: BountyAnalytics, amount: i128, timestamp: u64)
    requires
        a.is_balanced(),
        a.release_fits(amount),
        a.takes_exactly(amount),
    ensures
        a.after_release(amount, timestamp).is_balanced(),
        a.after_release(amount, timestamp).total_amount_locked == a.total_amount_locked,
        a.after_release(amount, timestamp).created_at == a.created_at,
        a.after_release(amount, timestamp).total_amount_refunded == a.total_amount_refunded,
        a.after_release(amount, timestamp).partial_refunds_count == a.partial_refunds_count,
{
}

/// A refund that needs no clamping keeps a balanced record balanced, and
/// leaves the locked amount, the creation time and the release side alone.
pub proof fn lemma_refund_keeps_balance(a: BountyAnalytics, amount: i128, timestamp: u64)
    requires
        a.is_balanced(),
        a.refund_fits(amount),
        a.takes_exactly(amount),
    ensures
        a.after_refund(amount, timestamp).is_balanced(),
        a.after_refund(amount, timestamp).total_amount_locked == a.total_amount_locked,
        a.after_refund(amount, timestamp).created_at == a.created_at,
        a.after_refund(amount, timestamp).total_amount_released == a.total_amount_released,
        a.after_refund(amount, timestamp).partial_releases_count == a.partial_releases_count,
{
}

/// Over any sequence of releases and refunds that fit, a balanced record
/// stays balanced; its released and refunded totals grow by exactly the
/// released and refunded amounts, its remaining amount shrinks by both, its
/// counters count the transitions, its locked amount and creation time never
/// change, and its last update is the time of the last transition.
pub proof fn lemma_updates_accounted(start: BountyAnalytics, updates: Seq<AnalyticsUpdate>)
    requires
        start.is_balanced(),
        all_fit(start, updates),
    ensures
        apply_all(start, updates).is_balanced(),
        apply_all(start, updates).total_amount_locked == start.total_amount_locked,
        apply_all(start, updates).created_at == start.created_at,
        apply_all(start, updates).total_amount_released == start.total_amount_released
            + released_sum(updates),
        apply_all(start, updates).total_amount_refunded == start.total_amount_refunded
            + refunded_sum(updates),
        apply_all(start, updates).remaining_amount == start.remaining_amount - released_sum(updates)
            - refunded_sum(updates),
        apply_all(start, updates).partial_releases_count == start.partial_releases_count
            + release_count(updates),
        apply_all(start, updates).partial_refunds_count == start.partial_refunds_count
            + refund_count(updates),
        apply_all(start, updates).last_updated == if updates.len() == 0 {
            start.last_updated
        } else {
            updates.last().at()
        },
    decreases updates.len(),
{
    if updates.len() > 0 {
        let prefix = updates.drop_last();
        lemma_updates_accounted(start, prefix);
        let mid = apply_all(start, prefix);
        match updates.last() {
            AnalyticsUpdate::Release { amount, timestamp } => {
                lemma_release_keeps_balance(mid, amount, timestamp);
            },
            AnalyticsUpdate::Refund { amount, timestamp } => {
                lemma_refund_keeps_balance(mid, amount, timestamp);
            },
        }
    }
}

/// A bounty's whole lifecycle: locking `amount` at `timestamp` and then
/// recording `updates` that fit leaves exactly `amount` minus what was
/// released and refunded, with both totals and both counters exact.
pub proof fn lemma_lifecycle(amount: i128, timestamp: u64, updates: Seq<AnalyticsUpdate>)
    requires
        all_fit(locked_record(amount, timestamp), updates),
    ensures
        apply_all(locked_record(amount, timestamp), updates).is_balanced(),
        apply_all(locked_record(amount, timestamp), updates).total_amount_locked == amount,
        apply_all(locked_record(amount, timestamp), updates).created_at == timestamp,
        apply_all(locked_record(amount, timestamp), updates).total_amount_released == released_sum(
            updates,
        ),
        apply_all(locked_record(amount, timestamp), updates).total_amount_refunded == refunded_sum(
            updates,
        ),
        apply_all(locked_record(amount, timestamp), updates).remaining_amount == amount
            - released_sum(updates) - refunded_sum(updates),
        apply_all(locked_record(amount, timestamp), updates).partial_releases_count
            == release_count(updates),
        apply_all(locked_record(amount, timestamp), updates).partial_refunds_count == refund_count(
            updates,
        ),
{
    lemma_locked_record_balanced(amount, timestamp);
    lemma_updates_accounted(locked_record(amount, timestamp), updates);
}

/// `a - b`, saturating at the bounds of `i128`.
fn saturating_sub(a: i128, b: i128) -> (r: i128)
    ensures
        r == saturating_sub_i128(a, b),
{
    match a.checked_sub(b) {
        Some(d) => d,
        None => {
            if b > 0 {
                i128::MIN
            } else {
                i128::MAX
            }
        },
    }
}

/// Initialize bounty analytics on lock: the record a newly locked bounty of
/// `amount` starts with at `timestamp`.
pub fn init_bounty_analytics(amount: i128, timestamp: u64) -> (analytics: BountyAnalytics)
    ensures
        analytics == locked_record(amount, timestamp),
        analytics.total_amount_locked == amount,
        analytics.total_amount_released == 0,
        analytics.total_amount_refunded == 0,
        analytics.remaining_amount == amount,
        analytics.created_at == timestamp,
        analytics.last_updated == timestamp,
        analytics.partial_releases_count == 0,
        analytics.partial_refunds_count == 0,
{
    BountyAnalytics {
        total_amount_locked: amount,
        total_amount_released: 0,
        total_amount_refunded: 0,
        remaining_amount: amount,
        created_at: timestamp,
        last_updated: timestamp,
        partial_releases_count: 0,
        partial_refunds_count: 0,
    }
}

/// Update analytics on release. `stored` is what the bounty's analytics slot
/// holds; a bounty without analytics is left without them.
pub fn update_analytics_on_release(
    stored: &mut Option<BountyAnalytics>,
    release_amount: i128,
    timestamp: u64,
)
    requires
        *old(stored) matches Some(a) ==> a.release_fits(release_amount),
    ensures
        *final(stored) == match *old(stored) {
            Some(a) => Some(a.after_release(release_amount, timestamp)),
            None => None::<BountyAnalytics>,
        },
        old(stored).is_none() <==> final(stored).is_none(),
        *old(stored) matches Some(a) ==> {
            let b = final(stored).unwrap();
            &&& b.total_amount_released == a.total_amount_released + release_amount
            &&& b.remaining_amount == (if a.remaining_amount - release_amount > i128::MAX {
                i128::MAX as int
            } else if a.remaining_amount - release_amount < i128::MIN {
                i128::MIN as int
            } else {
                a.remaining_amount - release_amount
            })
            &&& b.last_updated == timestamp
            &&& b.partial_releases_count == a.partial_releases_count + 1
            &&& b.total_amount_locked == a.total_amount_locked
            &&& b.total_amount_refunded == a.total_amount_refunded
            &&& b.created_at == a.created_at
            &&& b.partial_refunds_count == a.partial_refunds_count
        },
{
    if let Some(analytics) = stored {
        analytics.total_amount_released = analytics.total_amount_released + release_amount;
        analytics.remaining_amount = saturating_sub(analytics.remaining_amount, release_amount);
        analytics.last_updated = timestamp;
        analytics.partial_releases_count = analytics.partial_releases_count + 1;
    }
}

/// Update analytics on refund. `stored` is what the bounty's analytics slot
/// holds; a bounty without analytics is left without them.
pub fn update_analytics_on_refund(
    stored: &mut Option<BountyAnalytics>,
    refund_amount: i128,
    timestamp: u64,
)
    requires
        *old(stored) matches Some(a) ==> a.refund_fits(refund_amount),
    ensures
        *final(stored) == match *old(stored) {
            Some(a) => Some(a.after_refund(refund_amount, timestamp)),
            None => None::<BountyAnalytics>,
        },
        old(stored).is_none() <==> final(stored).is_none(),
        *old(stored) matches Some(a) ==> {
            let b = final(stored).unwrap();
            &&& b.total_amount_refunded == a.total_amount_refunded + refund_amount
            &&& b.remaining_amount == (if a.remaining_amount - refund_amount > i128::MAX {
                i128::MAX as int
            } else if a.remaining_amount - refund_amount < i128::MIN {
                i128::MIN as int
            } else {
                a.remaining_amount - refund_amount
            })
            &&& b.last_updated == timestamp
            &&& b.partial_refunds_count == a.partial_refunds_count + 1
            &&& b.total_amount_locked == a.total_amount_locked
            &&& b.total_amount_released == a.total_amount_released
            &&& b.created_at == a.created_at
            &&& b.partial_releases_count == a.partial_releases_count
        },
{
    if let Some(analytics) = stored {
        analytics.total_amount_refunded = analytics.total_amount_refunded + refund_amount;
        analytics.remaining_amount = saturating_sub(analytics.remaining_amount, refund_amount);
        analytics.last_updated = timestamp;
        analytics.partial_refunds_count = analytics.partial_refunds_count + 1;
    }
}

} // verus!
