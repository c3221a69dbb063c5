use vstd::prelude::*;
use crate::error::AuthError;
use crate::lock_policy::{spec_add_secs, spec_effective_attempts, LockPolicy};
use crate::service::{after_logout, profile_key_of, session_key_of};
use crate::session_store::is_live;
use crate::user::{
    bump, spec_failed_login, spec_login_attempt, spec_prepare_resend, spec_successful_login,
    spec_verify_email, ModelEx, Status,
};

verus! {

/// The account after failed logins at each of `times`, in order.
pub open spec fn after_failures(m: ModelEx, policy: LockPolicy, times: Seq<i64>) -> ModelEx
    decreases times.len(),
{
    if times.len() == 0 {
        m
    } else {
        spec_failed_login(after_failures(m, policy, times.drop_last()), policy, times.last())
    }
}

/// Whether each of `times` comes no earlier than the one before and less than
/// the lockout window after it.
pub open spec fn within_window(times: Seq<i64>, window_secs: i64) -> bool {
    forall|i: int|
        0 < i < times.len() ==> times[i - 1] <= #[trigger] times[i] && times[i] - times[i - 1]
            < window_secs
}

proof fn lemma_failures_count(m: ModelEx, policy: LockPolicy, times: Seq<i64>)
    requires
        policy.wf(),
        within_window(times, policy.lockout_window_secs),
        times.len() <= u32::MAX,
    ensures
        after_failures(m, policy, times).failed_login_attempts >= times.len(),
        times.len() > 0 ==> after_failures(m, policy, times).last_failed_login_at == Some(
            times.last(),
        ),
    decreases times.len(),
{
    if times.len() > 0 {
        let prefix = times.drop_last();
        assert forall|i: int| 0 < i < prefix.len() implies prefix[i - 1] <= #[trigger] prefix[i]
            && prefix[i] - prefix[i - 1] < policy.lockout_window_secs by {
            assert(times[i] == prefix[i]);
        }
        lemma_failures_count(m, policy, prefix);
        let before = after_failures(m, policy, prefix);
        if prefix.len() > 0 {
            assert(times[times.len() - 1] - times[times.len() - 2] < policy.lockout_window_secs);
            assert(spec_effective_attempts(
                before.failed_login_attempts,
                before.last_failed_login_at,
                times.last(),
                policy.lockout_window_secs,
            ) == before.failed_login_attempts);
        }
    }
}

/// Repeated failures lock the account: `max_attempts` failed logins, each
/// within the lockout window of the one before, leave the account locked
/// until a time after the last of them; a login at any time before that,
/// whatever its password, is refused as locked before the password is read.
pub proof fn lockout_after_max_failures(
    m: ModelEx,
    policy: LockPolicy,
    times: Seq<i64>,
    later: i64,
)
    requires
        policy.wf(),
        policy.max_attempts >= 1,
        times.len() == policy.max_attempts,
        within_window(times, policy.lockout_window_secs),
        times.last() < i64::MAX,
        times.last() <= later,
        later < spec_add_secs(times.last(), policy.lockout_duration_secs),
    ensures
        after_failures(m, policy, times).account_locked_until == Some(
            spec_add_secs(times.last(), policy.lockout_duration_secs),
        ),
        times.last() < spec_add_secs(times.last(), policy.lockout_duration_secs),
        spec_login_attempt(after_failures(m, policy, times), later) matches Err(
            AuthError::AccountLocked { .. },
        ),
{
    lemma_failures_count(m, policy, times);
}

/// A successful login clears the failure counter and any lock, whatever they
/// held before.
pub proof fn success_resets_counter(m: ModelEx, now: i64)
    ensures
        spec_successful_login(m, now).failed_login_attempts == 0,
        spec_successful_login(m, now).account_locked_until is None,
{
}

/// A failure older than the lockout window does not count: the next failure
/// counts as the first, and where one failure is below the threshold it sets
/// no lock, whatever the stored counter held.
pub proof fn stale_failure_does_not_count(m: ModelEx, policy: LockPolicy, now: i64)
    requires
        policy.wf(),
        m.last_failed_login_at matches Some(t) && now - t > policy.lockout_window_secs,
    ensures
        policy.max_attempts >= 2 ==> spec_failed_login(m, policy, now).account_locked_until
            == m.account_locked_until,
        spec_failed_login(m, policy, now).last_failed_login_at == Some(now),
        spec_effective_attempts(
            m.failed_login_attempts,
            m.last_failed_login_at,
            now,
            policy.lockout_window_secs,
        ) == 0,
        spec_failed_login(m, policy, now).failed_login_attempts == 1,
{
}

/// A verification token works once: verifying a second time, at any time,
/// is refused as already verified.
pub proof fn verification_is_single_use(m: ModelEx, first: i64, second: i64)
    requires
        m.email_verified_at is None,
        m.verification_token_expiry matches Some(e) && first <= e,
    ensures
        spec_verify_email(m, first) is Ok,
        spec_verify_email(m, first)->Ok_0.status == Status::ACTIVE,
        spec_verify_email(spec_verify_email(m, first)->Ok_0, second) == Err::<ModelEx, AuthError>(
            AuthError::AlreadyVerified,
        ),
{
}

/// With at most three resends an hour, counted from zero, three resends each
/// within the hour of the one before are granted and a fourth within the hour
/// of the third is refused as rate limited.
pub proof fn fourth_resend_within_hour_is_limited(
    m: ModelEx,
    tokens: Seq<String>,
    expiries: Seq<i64>,
    times: Seq<i64>,
)
    requires
        m.email_verified_at is None,
        m.verification_resend_count == 0,
        tokens.len() == 4,
        expiries.len() == 4,
        times.len() == 4,
        forall|i: int| 0 < i < 4 ==> #[trigger] times[i] - times[i - 1] < 3600 && times[i - 1] <= times[i],
    ensures
        spec_prepare_resend(m, tokens[0], expiries[0], times[0], 3) is Ok,
        spec_prepare_resend(
            spec_prepare_resend(m, tokens[0], expiries[0], times[0], 3)->Ok_0,
            tokens[1],
            expiries[1],
            times[1],
            3,
        ) is Ok,
        ({
            let m1 = spec_prepare_resend(m, tokens[0], expiries[0], times[0], 3)->Ok_0;
            let m2 = spec_prepare_resend(m1, tokens[1], expiries[1], times[1], 3)->Ok_0;
            let r3 = spec_prepare_resend(m2, tokens[2], expiries[2], times[2], 3);
            &&& r3 is Ok
            &&& spec_prepare_resend(r3->Ok_0, tokens[3], expiries[3], times[3], 3) == Err::<
                ModelEx,
                AuthError,
            >(AuthError::RateLimited { max_per_hour: 3 })
        }),
{
    assert(times[1] - times[0] < 3600);
    assert(times[2] - times[1] < 3600);
    assert(times[3] - times[2] < 3600);
}

/// A resend more than an hour after the last one is granted, and the count
/// starts again at one.
pub proof fn resend_after_hour_resets_count(
    m: ModelEx,
    token: String,
    expiry: i64,
    now: i64,
    max_per_hour: u32,
)
    requires
        m.email_verified_at is None,
        m.last_verification_resend_at matches Some(t) && now - t > 3600,
        max_per_hour >= 1,
    ensures
        spec_prepare_resend(m, token, expiry, now, max_per_hour) is Ok,
        spec_prepare_resend(m, token, expiry, now, max_per_hour)->Ok_0.verification_resend_count
            == 1,
{
    assert(bump(0) == 1);
}

/// Logging out is idempotent: a second logout of the same session leaves
/// the store as the first left it, and deleting the session key again finds
/// nothing live.
pub proof fn logout_twice_is_logout_once(
    before: Map<Seq<char>, (Seq<char>, i64)>,
    session_id: Seq<char>,
    user_id: i64,
    now: i64,
)
    ensures
        after_logout(after_logout(before, session_id, user_id), session_id, user_id)
            == after_logout(before, session_id, user_id),
        !is_live(after_logout(before, session_id, user_id), session_key_of(session_id), now),
{
    let once = after_logout(before, session_id, user_id);
    assert(after_logout(once, session_id, user_id) =~= once);
}

/// Deleting a key that the store does not hold reports that nothing existed.
pub proof fn delete_absent_reports_nothing(
    before: Map<Seq<char>, (Seq<char>, i64)>,
    key: Seq<char>,
    now: i64,
)
    requires
        !before.contains_key(key),
    ensures
        !is_live(before, key, now),
        before.remove(key) == before,
{
    assert(before.remove(key) =~= before);
}

/// Writes evict: once an update has removed a user's cached profile, a
/// profile read at any time misses the cache and goes to the account store.
pub proof fn update_leaves_no_stale_profile(
    before: Map<Seq<char>, (Seq<char>, i64)>,
    user_id: i64,
    now: i64,
)
    ensures
        !is_live(before.remove(profile_key_of(user_id)), profile_key_of(user_id), now),
{
}

} // verus!
