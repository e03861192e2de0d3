//! The whole probe as one verified sequence: query the two limits, take the
//! census, then run the exhaustion experiment, stopping at the first fatal
//! query failure.
//!
//! The exhaustion loop's upper bound is the resource-limit value (the
//! enforced limit); the census probes descriptor numbers below the same
//! value, capped at the largest number the existence check can address.

use vstd::prelude::*;

use crate::census;
use crate::census::census_records;
use crate::census::CensusReport;
use crate::exhaust;
use crate::exhaust::ExhaustOutcome;
use crate::exhaust::ExhaustReport;
use crate::exhaust::OpenAttempt;
use crate::limits;
use crate::limits::QueryError;

verus! {

/// Everything one probe run observed, or the query failure that cut it
/// short. A failed system-configuration query ends the run before the
/// resource-limit query; a failed resource-limit query ends it before the
/// census and the experiment.
pub enum RunReport {
    /// The system-configuration query failed; nothing further ran.
    SysconfFailed(QueryError),
    /// The resource-limit query failed after the system-configuration query
    /// answered; the census and the experiment never ran.
    RlimitFailed { sysconf_max: usize, error: QueryError },
    /// Both queries answered, the census ran, and the exhaustion experiment
    /// ran to its terminal condition.
    Completed {
        sysconf_max: usize,
        rlimit_max: usize,
        census: CensusReport,
        exhaust: ExhaustReport,
    },
}

/// How many descriptor numbers the census probes for a given limit: the
/// limit itself, capped at the largest number the existence check can
/// address.
pub open spec fn census_bound(limit: usize) -> usize {
    if limit <= i32::MAX as usize {
        limit
    } else {
        i32::MAX as usize
    }
}

/// Run the full probe. Whatever the machine answers, a completed report
/// keeps everything the steps promise: the census records are exactly what
/// its probe history over the probed bound dictates, in increasing
/// descriptor order, and their number is the census count; the experiment's
/// attempt history is its retained handles' successful opens — nonnegative
/// descriptor numbers, one per open — followed by the failed attempt that
/// ended a loop that did not run to completion; and the counts tie across
/// the steps, the experiment running from the census count up to and
/// including the resource limit.
pub fn run_probe() -> (r: RunReport)
    ensures
        r matches RunReport::Completed { rlimit_max, census, exhaust, .. } ==> {
            &&& census.probes@.len() == census_bound(rlimit_max)
            &&& census.records@ == census_records(census.probes@)
            &&& census.count == census.records@.len()
            &&& census.count <= census_bound(rlimit_max)
            &&& census.count <= rlimit_max
            &&& (forall|k: int|
                0 <= k < census.records@.len() ==> (#[trigger] census.records@[k]).fd
                    < census_bound(rlimit_max))
            &&& (forall|j: int, k: int|
                0 <= j < k < census.records@.len() ==> (#[trigger] census.records@[j]).fd
                    < (#[trigger] census.records@[k]).fd)
            &&& exhaust.opened == exhaust.handles@.len()
            &&& exhaust.opened <= rlimit_max - census.count + 1
            &&& (exhaust.outcome matches ExhaustOutcome::CompletedAll ==> exhaust.opened
                == rlimit_max - census.count + 1)
            &&& (!(exhaust.outcome matches ExhaustOutcome::CompletedAll) ==> exhaust.opened
                <= rlimit_max - census.count)
            &&& (forall|k: int| 0 <= k < exhaust.handles@.len() ==> exhaust.handles@[k] >= 0)
            &&& (exhaust.outcome matches ExhaustOutcome::CompletedAll ==> exhaust.attempts@.len()
                == exhaust.opened)
            &&& (!(exhaust.outcome matches ExhaustOutcome::CompletedAll)
                ==> exhaust.attempts@.len() == exhaust.opened + 1)
            &&& (forall|k: int|
                0 <= k < exhaust.opened ==> exhaust.attempts@[k] == OpenAttempt::Opened(
                    exhaust.handles@[k],
                ))
            &&& (exhaust.outcome matches ExhaustOutcome::Exhausted { errno }
                ==> exhaust.attempts@.last() == OpenAttempt::Exhausted(errno))
            &&& (exhaust.outcome matches ExhaustOutcome::Failed { errno }
                ==> exhaust.attempts@.last() == OpenAttempt::Failed(errno))
        },
        r matches RunReport::RlimitFailed { error, .. } ==> error matches QueryError::Sys(_),
{
    let sysconf_max = match limits::get_open_max_sysconf() {
        Ok(v) => v,
        Err(e) => {
            return RunReport::SysconfFailed(e);
        },
    };
    let rlimit_max = match limits::get_open_max_rlimit() {
        Ok(v) => v,
        Err(e) => {
            return RunReport::RlimitFailed { sysconf_max, error: e };
        },
    };
    let bound = if rlimit_max <= i32::MAX as usize {
        rlimit_max
    } else {
        i32::MAX as usize
    };
    let census = census::count_open_files(bound);
    let exhaust = exhaust::open_files(census.count, rlimit_max);
    RunReport::Completed { sysconf_max, rlimit_max, census, exhaust }
}

} // verus!
