use vstd::prelude::*;

verus! {

/// Seconds in a minute.
pub const SECS_PER_MINUTE: i64 = 60;

/// `t + d`, held at `i64::MAX` where the sum does not fit.
pub open spec fn spec_add_secs(t: i64, d: i64) -> i64 {
    if t + d > i64::MAX {
        i64::MAX
    } else {
        (t + d) as i64
    }
}

/// Adds a non-negative number of seconds to a timestamp, saturating at the
/// largest timestamp.
pub fn add_secs(t: i64, d: i64) -> (r: i64)
    requires
        d >= 0,
    ensures
        r == spec_add_secs(t, d),
{
    if t > i64::MAX - d {
        i64::MAX
    } else {
        t + d
    }
}

/// Thresholds of the brute-force protection, all in seconds.
#[derive(Debug, Clone, Copy, PartialEq, Eq, Structural)]
pub struct LockPolicy {
    pub max_attempts: u32,
    pub lockout_window_secs: i64,
    pub lockout_duration_secs: i64,
}

impl LockPolicy {
    pub open spec fn wf(self) -> bool {
        self.lockout_window_secs >= 0 && self.lockout_duration_secs > 0
    }

    /// Five attempts within fifteen minutes lock the account for thirty.
    pub fn standard() -> (r: LockPolicy)
        ensures
            r.wf(),
            r.max_attempts == 5,
            r.lockout_window_secs == 15 * 60,
            r.lockout_duration_secs == 30 * 60,
    {
        LockPolicy { max_attempts: 5, lockout_window_secs: 15 * 60, lockout_duration_secs: 30 * 60 }
    }
}

/// Whether the window has elapsed since the last failure: then the stored
/// counter no longer counts.
pub open spec fn window_elapsed(last_failed_at: Option<i64>, now: i64, window_secs: i64) -> bool {
    match last_failed_at {
        Some(t) => now - t >= window_secs,
        None => false,
    }
}

/// The failed attempts that count toward the threshold at `now`.
pub open spec fn spec_effective_attempts(
    failed_attempts: u32,
    last_failed_at: Option<i64>,
    now: i64,
    window_secs: i64,
) -> u32 {
    if window_elapsed(last_failed_at, now, window_secs) {
        0
    } else {
        failed_attempts
    }
}

/// The failed attempts that count toward the threshold at `now`.
pub fn effective_attempts(
    failed_attempts: u32,
    last_failed_at: Option<i64>,
    now: i64,
    window_secs: i64,
) -> (r: u32)
    requires
        window_secs >= 0,
    ensures
        r == spec_effective_attempts(failed_attempts, last_failed_at, now, window_secs),
{
    match last_failed_at {
        Some(t) => {
            if (now as i128) - (t as i128) >= window_secs as i128 {
                0
            } else {
                failed_attempts
            }
        },
        None => failed_attempts,
    }
}

/// The lock decision: `Some(until)` when `attempts` reaches the threshold.
pub open spec fn spec_decide_lock(policy: LockPolicy, attempts: u32, now: i64) -> Option<i64> {
    if attempts >= policy.max_attempts {
        Some(spec_add_secs(now, policy.lockout_duration_secs))
    } else {
        None
    }
}

/// Decides, for a counter of `attempts`, whether to lock and until when.
pub fn decide_lock(policy: &LockPolicy, attempts: u32, now: i64) -> (r: Option<i64>)
    requires
        policy.wf(),
    ensures
        r == spec_decide_lock(*policy, attempts, now),
{
    if attempts >= policy.max_attempts {
        Some(add_secs(now, policy.lockout_duration_secs))
    } else {
        None
    }
}

/// The policy decision on stored counters at `now`: a counter older than
/// the window counts as zero, and a counter at the threshold locks.
pub fn evaluate_lock(
    policy: &LockPolicy,
    failed_attempts: u32,
    last_failed_at: Option<i64>,
    now: i64,
) -> (r: Option<i64>)
    requires
        policy.wf(),
    ensures
        r == spec_decide_lock(
            *policy,
            spec_effective_attempts(failed_attempts, last_failed_at, now, policy.lockout_window_secs),
            now,
        ),
{
    let current = effective_attempts(failed_attempts, last_failed_at, now, policy.lockout_window_secs);
    decide_lock(policy, current, now)
}

} // verus!
