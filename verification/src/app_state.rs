//! Call counts and cumulative latencies of the service's two operations.
//!
//! The counters are plain values. A host that serves requests
//! concurrently keeps each class behind a lock of its own, so that
//! issuance and verification never wait for each other, and hands the
//! locked class to the service.

use vstd::prelude::*;

verus! {

/// Count and cumulative duration of one class of operation. Both move
/// together: every recorded call adds one to the count and its duration
/// to the total.
#[derive(Clone, Copy, Debug, PartialEq, Eq, Structural)]
pub struct OperationStats {
    pub count: u32,
    pub total_millis: u128,
}

impl OperationStats {
    /// Whether one more call of `millis` milliseconds fits in the
    /// counters.
    pub open spec fn can_record(self, millis: u128) -> bool {
        self.count < u32::MAX && self.total_millis + millis <= u128::MAX
    }

    /// The counters after one more call that took `millis` milliseconds.
    pub open spec fn recorded(self, millis: u128) -> OperationStats {
        OperationStats {
            count: (self.count + 1) as u32,
            total_millis: (self.total_millis + millis) as u128,
        }
    }

    /// The counters after a call that is recorded if it fits and left
    /// out if it does not.
    pub open spec fn record_if_fits(self, millis: u128) -> OperationStats {
        if self.can_record(millis) {
            self.recorded(millis)
        } else {
            self
        }
    }

    /// Counters of a class that was never invoked.
    pub fn new() -> (stats: OperationStats)
        ensures
            stats.count == 0,
            stats.total_millis == 0,
    {
        OperationStats { count: 0, total_millis: 0 }
    }

    /// Adds one call and its duration.
    pub fn record(&mut self, millis: u128)
        requires
            old(self).can_record(millis),
        ensures
            *final(self) == old(self).recorded(millis),
            final(self).count == old(self).count + 1,
            final(self).total_millis == old(self).total_millis + millis,
    {
        self.count = self.count + 1;
        self.total_millis = self.total_millis + millis;
    }

    /// Adds one call and its duration if the counters can take them,
    /// and says whether they could. Count and total change together or
    /// not at all.
    pub fn try_record(&mut self, millis: u128) -> (done: bool)
        ensures
            done == old(self).can_record(millis),
            *final(self) == old(self).record_if_fits(millis),
    {
        if self.count < u32::MAX && millis <= u128::MAX - self.total_millis {
            self.record(millis);
            true
        } else {
            false
        }
    }
}

/// All four counters as of one moment.
#[derive(Clone, Copy, Debug, PartialEq, Eq, Structural)]
pub struct StatsSnapshot {
    pub issuance_count: u32,
    pub issuance_total_millis: u128,
    pub verification_count: u32,
    pub verification_total_millis: u128,
}

/// The counters of the service: one pair for issuance, one for
/// verification. A record in one class leaves the other as it was.
#[derive(Clone, Copy, Debug, PartialEq, Eq, Structural)]
pub struct AppStateWithCounter {
    pub issuance: OperationStats,
    pub verification: OperationStats,
}

impl AppStateWithCounter {
    /// The snapshot that `snapshot` takes.
    pub open spec fn snapshot_of(self) -> StatsSnapshot {
        StatsSnapshot {
            issuance_count: self.issuance.count,
            issuance_total_millis: self.issuance.total_millis,
            verification_count: self.verification.count,
            verification_total_millis: self.verification.total_millis,
        }
    }

    /// Counters of a service that has done nothing yet.
    pub fn new() -> (state: AppStateWithCounter)
        ensures
            state.issuance == (OperationStats { count: 0, total_millis: 0 }),
            state.verification == (OperationStats { count: 0, total_millis: 0 }),
    {
        AppStateWithCounter { issuance: OperationStats::new(), verification: OperationStats::new() }
    }

    /// Counts one issuance that took `millis` milliseconds.
    pub fn record_issuance(&mut self, millis: u128)
        requires
            old(self).issuance.can_record(millis),
        ensures
            final(self).issuance == old(self).issuance.recorded(millis),
            final(self).verification == old(self).verification,
    {
        self.issuance.record(millis);
    }

    /// Counts one verification that took `millis` milliseconds.
    pub fn record_verification(&mut self, millis: u128)
        requires
            old(self).verification.can_record(millis),
        ensures
            final(self).verification == old(self).verification.recorded(millis),
            final(self).issuance == old(self).issuance,
    {
        self.verification.record(millis);
    }

    /// Reads all four counters at once.
    pub fn snapshot(&self) -> (snapshot: StatsSnapshot)
        ensures
            snapshot == self.snapshot_of(),
    {
        StatsSnapshot {
            issuance_count: self.issuance.count,
            issuance_total_millis: self.issuance.total_millis,
            verification_count: self.verification.count,
            verification_total_millis: self.verification.total_millis,
        }
    }
}

/// The sum of a run of durations.
pub open spec fn total_of(durations: Seq<u128>) -> nat
    decreases durations.len(),
{
    if durations.len() == 0 {
        0
    } else {
        total_of(durations.drop_last()) + durations.last() as nat
    }
}

/// The counters after the calls of `durations`, recorded one after the
/// other.
pub open spec fn recorded_all(start: OperationStats, durations: Seq<u128>) -> OperationStats
    decreases durations.len(),
{
    if durations.len() == 0 {
        start
    } else {
        recorded_all(start, durations.drop_last()).recorded(durations.last())
    }
}

/// No record is lost: after any run of calls that fits, the count has
/// grown by the number of calls and the total by the sum of their
/// durations.
pub proof fn lemma_every_record_counts(start: OperationStats, durations: Seq<u128>)
    requires
        start.count + durations.len() <= u32::MAX,
        start.total_millis + total_of(durations) <= u128::MAX,
    ensures
        recorded_all(start, durations).count == start.count + durations.len(),
        recorded_all(start, durations).total_millis == start.total_millis + total_of(durations),
    decreases durations.len(),
{
    if durations.len() > 0 {
        lemma_every_record_counts(start, durations.drop_last());
    }
}

/// Taking one duration out of a run lowers the sum by that duration.
proof fn lemma_total_without(durations: Seq<u128>, index: int)
    requires
        0 <= index < durations.len(),
    ensures
        total_of(durations) == total_of(durations.remove(index)) + durations[index],
    decreases durations.len(),
{
    if index < durations.len() - 1 {
        lemma_total_without(durations.drop_last(), index);
        assert(durations.remove(index).drop_last() =~= durations.drop_last().remove(index));
    }
}

/// The sum of a run of durations is the same in every order.
proof fn lemma_total_ignores_order(first: Seq<u128>, second: Seq<u128>)
    requires
        first.to_multiset() == second.to_multiset(),
    ensures
        total_of(first) == total_of(second),
    decreases first.len(),
{
    first.to_multiset_ensures();
    second.to_multiset_ensures();
    if first.len() > 0 {
        let last = first.last();
        assert(first.to_multiset().count(last) > 0);
        assert(second.contains(last));
        let index = choose|index: int| 0 <= index < second.len() && second[index] == last;
        lemma_total_without(second, index);
        assert(first.drop_last() =~= first.remove(first.len() - 1));
        lemma_total_ignores_order(first.drop_last(), second.remove(index));
    }
}

/// The order in which calls arrive is immaterial: two runs of the same
/// calls leave the same counters. With every record made under the lock
/// of its class, this is what makes the counters of a concurrent service
/// exact, since each interleaving is one such order.
pub proof fn lemma_order_of_arrival_is_immaterial(
    start: OperationStats,
    first: Seq<u128>,
    second: Seq<u128>,
)
    requires
        first.to_multiset() == second.to_multiset(),
        start.count + first.len() <= u32::MAX,
        start.total_millis + total_of(first) <= u128::MAX,
    ensures
        recorded_all(start, first) == recorded_all(start, second),
{
    first.to_multiset_ensures();
    second.to_multiset_ensures();
    lemma_total_ignores_order(first, second);
    lemma_every_record_counts(start, first);
    lemma_every_record_counts(start, second);
}

/// Two calls may arrive in either order: the counters end up the same.
pub proof fn lemma_records_commute(start: OperationStats, first: u128, second: u128)
    requires
        start.count + 2 <= u32::MAX,
        start.total_millis + first + second <= u128::MAX,
    ensures
        start.recorded(first).recorded(second) == start.recorded(second).recorded(first),
{
}

/// Counters never go down, whether a call is recorded or left out.
pub proof fn lemma_counters_only_grow(start: OperationStats, millis: u128)
    ensures
        start.record_if_fits(millis).count >= start.count,
        start.record_if_fits(millis).total_millis >= start.total_millis,
{
}

} // verus!
