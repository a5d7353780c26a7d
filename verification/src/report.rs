//! The report of the service on itself: counts and mean latencies, in
//! whole numbers.

use vstd::prelude::*;

use crate::app_state::{
    lemma_every_record_counts, recorded_all, total_of, AppStateWithCounter, OperationStats,
    StatsSnapshot,
};

verus! {

/// A mean duration in milliseconds, kept exact: the mean of `samples`
/// calls is `whole` and `remainder / samples`.
#[derive(Clone, Copy, Debug, PartialEq, Eq, Structural)]
pub struct MeanMillis {
    pub whole: u128,
    pub remainder: u128,
    pub samples: u32,
}

/// The mean of `count` calls that took `total` milliseconds together.
/// No calls have no mean.
pub open spec fn mean_of(total: u128, count: u32) -> Option<MeanMillis> {
    if count == 0 {
        None
    } else {
        Some(
            MeanMillis {
                whole: (total as int / count as int) as u128,
                remainder: (total as int % count as int) as u128,
                samples: count,
            },
        )
    }
}

/// Divides a total by a count. A count of zero gives `None`, never a
/// division.
pub fn mean_millis(total: u128, count: u32) -> (mean: Option<MeanMillis>)
    ensures
        mean == mean_of(total, count),
        count == 0 <==> mean is None,
{
    if count == 0 {
        None
    } else {
        let divisor: u128 = count as u128;
        Some(MeanMillis { whole: total / divisor, remainder: total % divisor, samples: count })
    }
}

/// The mean loses nothing: whole part and remainder give the total back,
/// and the remainder is less than the count.
pub proof fn lemma_mean_is_exact(total: u128, count: u32)
    requires
        count > 0,
    ensures
        mean_of(total, count) matches Some(mean) && {
            &&& mean.samples == count
            &&& mean.whole * count + mean.remainder == total
            &&& mean.remainder < count
        },
{
    let t: int = total as int;
    let c: int = count as int;
    vstd::arithmetic::div_mod::lemma_fundamental_div_mod(t, c);
    assert(c * (t / c) == (t / c) * c) by (nonlinear_arith);
}

/// What the service reports of itself: how often each operation ran and
/// how long it took on average. A class that never ran has no average.
#[derive(Clone, Copy, Debug, PartialEq, Eq, Structural)]
pub struct StatsReport {
    pub issuance_count: u32,
    pub issuance_average_millis: Option<MeanMillis>,
    pub verification_count: u32,
    pub verification_average_millis: Option<MeanMillis>,
}

/// The report that belongs to a snapshot.
pub open spec fn report_of(snapshot: StatsSnapshot) -> StatsReport {
    StatsReport {
        issuance_count: snapshot.issuance_count,
        issuance_average_millis: mean_of(snapshot.issuance_total_millis, snapshot.issuance_count),
        verification_count: snapshot.verification_count,
        verification_average_millis: mean_of(
            snapshot.verification_total_millis,
            snapshot.verification_count,
        ),
    }
}

/// Turns a snapshot into the report: the counts as they are, and for
/// each class the total divided by the count.
pub fn stats(snapshot: &StatsSnapshot) -> (report: StatsReport)
    ensures
        report == report_of(*snapshot),
{
    StatsReport {
        issuance_count: snapshot.issuance_count,
        issuance_average_millis: mean_millis(
            snapshot.issuance_total_millis,
            snapshot.issuance_count,
        ),
        verification_count: snapshot.verification_count,
        verification_average_millis: mean_millis(
            snapshot.verification_total_millis,
            snapshot.verification_count,
        ),
    }
}

/// The report counts every issuance: after any run of issuances that
/// fits, recorded in a service that had done nothing, the report gives
/// their number, and the mean it gives is their sum over their number.
pub proof fn lemma_report_counts_every_issuance(durations: Seq<u128>)
    requires
        durations.len() <= u32::MAX,
        total_of(durations) <= u128::MAX,
    ensures
        ({
            let idle = OperationStats { count: 0, total_millis: 0 };
            let state = AppStateWithCounter {
                issuance: recorded_all(idle, durations),
                verification: idle,
            };
            let report = report_of(state.snapshot_of());
            &&& report.issuance_count == durations.len()
            &&& report.issuance_average_millis == mean_of(
                total_of(durations) as u128,
                durations.len() as u32,
            )
            &&& report.verification_count == 0
            &&& report.verification_average_millis is None
        }),
{
    lemma_every_record_counts(OperationStats { count: 0, total_millis: 0 }, durations);
}

} // verus!
