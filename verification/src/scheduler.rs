//! The background scheduler's decisions: the fixed, non-configurable
//! schedule of periodic sync passes, the credential gate that lets a
//! scheduled pass run at all, and the severity classification of each
//! pass's outcome. The host process owns the timer loop and feeds these
//! decisions; a failed pass never escalates beyond a log line, and each
//! tick proceeds independently of the ones missed before it.

use vstd::prelude::*;

use crate::error::contains_seq;
use crate::error::str_contains;

verus! {

/// Sync interval: 4 hours (not user-configurable to prevent API abuse).
pub const SYNC_INTERVAL_SECS: u64 = 4 * 60 * 60;

/// Initial delay before the first sync, to let the host fully start.
pub const INITIAL_DELAY_SECS: u64 = 60;

/// An owned handle describing the background sync schedule the host loop
/// must follow: wait the initial delay once, then run one scheduled pass
/// every interval.
#[derive(Debug, Clone, Copy, PartialEq, Eq, Structural)]
pub struct SyncScheduler {
    pub interval_secs: u64,
    pub initial_delay_secs: u64,
}

/// Starts the background broker sync scheduler: builds the fixed schedule
/// for the host to drive. Neither parameter is user-tunable.
pub fn start_broker_sync_scheduler() -> (s: SyncScheduler)
    ensures
        s.interval_secs == SYNC_INTERVAL_SECS,
        s.initial_delay_secs == INITIAL_DELAY_SECS,
{
    SyncScheduler { interval_secs: SYNC_INTERVAL_SECS, initial_delay_secs: INITIAL_DELAY_SECS }
}

/// How the outcome of one scheduled tick is reported.
#[derive(Debug, Clone, Copy, PartialEq, Eq, Structural)]
pub enum ScheduledOutcomeLog {
    /// The pass was skipped before any network call: no credential is
    /// stored, the normal logged-out state, reported quietly.
    SkippedNoCredential,
    /// The pass succeeded; carries the number of activities synced.
    Completed { activities: u64 },
    /// The pass failed only for want of authentication; reported quietly.
    AuthQuiet,
    /// Any other failure; reported at warning severity.
    Warning,
}

/// A failure message that merely reports an absent or expired login.
pub open spec fn expected_auth_failure(msg: Seq<char>) -> bool {
    contains_seq(msg, "No refresh token"@) || contains_seq(msg, "not authenticated"@)
        || contains_seq(msg, "Session expired"@)
}

/// Whether a pass failure message merely reports an absent or expired
/// login, the expected state when the user is not signed in.
pub fn is_expected_auth_failure(message: &str) -> (r: bool)
    ensures
        r == expected_auth_failure(message@),
{
    str_contains(message, "No refresh token") || str_contains(message, "not authenticated")
        || str_contains(message, "Session expired")
}

/// The scheduler's gate, decided before any network work: a scheduled pass
/// runs exactly when a sync credential is stored.
pub fn scheduled_pass_runs(has_credential: bool) -> (r: bool)
    ensures
        r == has_credential,
{
    has_credential
}

/// Classify one scheduled pass for logging: the synced activity count on
/// success (absent counts as zero), a quiet log when the failure message
/// reports an absent or expired login, and a warning for anything else.
pub fn classify_scheduled_outcome(outcome: &Result<Option<u64>, String>) -> (l: ScheduledOutcomeLog)
    ensures
        match outcome {
            Ok(Some(n)) => l == (ScheduledOutcomeLog::Completed { activities: *n }),
            Ok(None) => l == (ScheduledOutcomeLog::Completed { activities: 0u64 }),
            Err(m) => l == (if expected_auth_failure(m@) {
                ScheduledOutcomeLog::AuthQuiet
            } else {
                ScheduledOutcomeLog::Warning
            }),
        },
{
    match outcome {
        Ok(Some(n)) => ScheduledOutcomeLog::Completed { activities: *n },
        Ok(None) => ScheduledOutcomeLog::Completed { activities: 0 },
        Err(m) => {
            if is_expected_auth_failure(m.as_str()) {
                ScheduledOutcomeLog::AuthQuiet
            } else {
                ScheduledOutcomeLog::Warning
            }
        },
    }
}

} // verus!
