//! The two programmatic limit queries: the live system-configuration
//! interface and the resource-limit interface.
//!
//! Each query's raw outcome depends on machine state, so the exact meaning
//! of an outcome is pinned down by a classification function on plain
//! values, and the query function itself promises that its answer is such a
//! classification.

use vstd::prelude::*;

use crate::sys;

verus! {

/// Why a limit query produced no usable count.
#[derive(Clone, Copy, Debug, PartialEq, Eq, Structural)]
pub enum QueryError {
    /// The interface answered, but with no defined value.
    NoValue,
    /// The underlying call failed outright; the payload is the reported
    /// operating-system error code.
    Sys(i32),
}

/// The resolved form of a soft resource limit: the platform's "unbounded"
/// sentinel (the all-ones value) becomes the largest representable count,
/// and a value beyond what this address width can count is clamped to the
/// same maximum.
pub open spec fn resolved_soft_limit(soft: u64) -> usize {
    if soft == u64::MAX || soft as int > usize::MAX as int {
        usize::MAX
    } else {
        soft as usize
    }
}

/// Substitute the largest representable count for the resource-limit
/// interface's "unbounded" sentinel. Substituting, rather than falling back
/// to another query, is deliberate: the other query has no further source to
/// fall back to, so a fallback would never bottom out.
pub fn resolve_soft_limit(soft: u64) -> (r: usize)
    ensures
        r == resolved_soft_limit(soft),
{
    let infinity = sys::rlim_infinity();
    if soft == infinity || soft > usize::MAX as u64 {
        usize::MAX
    } else {
        soft as usize
    }
}

/// What a raw outcome of the system-configuration query means: a
/// non-negative raw value is the advertised count (clamped to what this
/// address width can represent), a missing or negative value is "no defined
/// value", and a call failure keeps its error code.
pub open spec fn classified_sysconf(raw: Result<Option<i64>, i32>) -> Result<usize, QueryError> {
    match raw {
        Ok(Some(v)) => if v < 0 {
            Err(QueryError::NoValue)
        } else if v as int > usize::MAX as int {
            Ok(usize::MAX)
        } else {
            Ok(v as usize)
        },
        Ok(None) => Err(QueryError::NoValue),
        Err(code) => Err(QueryError::Sys(code)),
    }
}

/// Turn a raw outcome of the system-configuration query into either a
/// definite count or an explained error — never a silently wrong answer.
pub fn open_max_from_sysconf(raw: Result<Option<i64>, i32>) -> (r: Result<usize, QueryError>)
    ensures
        r == classified_sysconf(raw),
{
    match raw {
        Ok(Some(v)) => {
            if v < 0 {
                Err(QueryError::NoValue)
            } else if v as u64 > usize::MAX as u64 {
                Ok(usize::MAX)
            } else {
                Ok(v as usize)
            }
        },
        Ok(None) => Err(QueryError::NoValue),
        Err(code) => Err(QueryError::Sys(code)),
    }
}

/// Query the live system-configuration interface for the open-file maximum.
/// The raw outcome is machine state; whatever comes back is classified
/// exactly as [`classified_sysconf`] says.
pub fn get_open_max_sysconf() -> (r: Result<usize, QueryError>)
    ensures
        exists|raw: Result<Option<i64>, i32>| r == #[trigger] classified_sysconf(raw),
{
    open_max_from_sysconf(sys::sysconf_open_max())
}

/// Law: the system-configuration query never yields a silently wrong
/// answer. Its classification is a count exactly when the interface
/// answered with a non-negative value, it is that value whenever the value
/// is representable, and every other outcome is an error to report.
pub proof fn lemma_sysconf_never_silent(raw: Result<Option<i64>, i32>)
    ensures
        (classified_sysconf(raw) matches Ok(n)) <==> (raw matches Ok(Some(v)) && v >= 0),
        raw matches Ok(Some(v)) ==> (0 <= v && v as int <= usize::MAX as int
            ==> classified_sysconf(raw) == Ok::<usize, QueryError>(v as usize)),
{
}

/// Law: the resource-limit query reports the "unbounded" sentinel as the
/// largest representable count — never as the literal sentinel — and every
/// representable non-sentinel soft limit as itself.
pub proof fn lemma_unbounded_reported_as_max(hard: u64)
    ensures
        classified_rlimit(Ok((u64::MAX, hard))) == Ok::<usize, QueryError>(usize::MAX),
        forall|soft: u64|
            soft != u64::MAX && soft as int <= usize::MAX as int
                ==> #[trigger] resolved_soft_limit(soft) == soft,
{
}

/// What a raw outcome of the resource-limit query means: the soft limit of
/// a successful call, resolved as [`resolved_soft_limit`] says; a call
/// failure keeps its error code.
pub open spec fn classified_rlimit(raw: Result<(u64, u64), i32>) -> Result<usize, QueryError> {
    match raw {
        Ok(pair) => Ok(resolved_soft_limit(pair.0)),
        Err(code) => Err(QueryError::Sys(code)),
    }
}

/// Turn a raw outcome of the resource-limit query into either a resolved
/// count or an explained error.
pub fn open_max_from_rlimit(raw: Result<(u64, u64), i32>) -> (r: Result<usize, QueryError>)
    ensures
        r == classified_rlimit(raw),
{
    match raw {
        Ok((soft, _hard)) => Ok(resolve_soft_limit(soft)),
        Err(code) => Err(QueryError::Sys(code)),
    }
}

/// Query the resource-limit interface for the enforced (soft) open-file
/// limit. The raw outcome is machine state; whatever comes back is
/// classified exactly as [`classified_rlimit`] says — in particular the
/// "unbounded" sentinel always comes back as the largest representable
/// count, and a failure always carries its error code.
pub fn get_open_max_rlimit() -> (r: Result<usize, QueryError>)
    ensures
        exists|raw: Result<(u64, u64), i32>| r == #[trigger] classified_rlimit(raw),
        r matches Err(e) ==> e matches QueryError::Sys(_),
{
    open_max_from_rlimit(sys::getrlimit_nofile())
}

} // verus!
