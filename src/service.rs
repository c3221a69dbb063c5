use vstd::prelude::*;
use crate::commands::{DeviceInfo, RegisterUserCommand};
use crate::date::CalendarDate;
use crate::error::{AppResult, AuthError, ConflictField};
use crate::lock_policy::{spec_add_secs, LockPolicy};
use crate::presentation::UserCreatedSerializer;
use crate::rules::{
    age_violation, email_violation, full_name_violation, password_violation, phone_violation,
    rule_outcome, BusinessRuleInterface, EmailMustBeUnique, EmailMustBeValid, FullNameMustBeValid,
    PasswordMustMeetRequirements, PhoneMustBeUnique, PhoneMustBeValid, UserMustBeAtLeastAge,
    EMAIL_PATTERN, PHONE_PATTERN,
};
use crate::session_store::{is_live, SessionStore};
use crate::text::{clone_opt, decimal, decimal_string, regex_outcome};
use crate::token::{display_name, full_name_of, role_name, TokenResponse, UserClaims, UserInfo};
use crate::address::{or_keep, or_keep_opt};
use crate::user::{
    is_registration_model, registration_violation, spec_failed_login, spec_login_attempt,
    spec_prepare_resend, spec_successful_login, spec_verify_email, ModelEx, UpdateUserRequest,
    update_user_violation, MINIMUM_AGE,
};

verus! {

/// The thresholds and lifetimes (in seconds) that the account operations use.
pub struct AuthConfig {
    pub lock: LockPolicy,
    pub session_ttl_secs: i64,
    pub access_ttl_secs: i64,
    pub refresh_ttl_secs: i64,
    pub profile_ttl_secs: i64,
    pub max_resends_per_hour: u32,
}

impl AuthConfig {
    pub open spec fn wf(&self) -> bool {
        &&& self.lock.wf()
        &&& self.session_ttl_secs >= 0
        &&& self.access_ttl_secs >= 0
        &&& self.refresh_ttl_secs >= 0
        &&& self.profile_ttl_secs >= 0
    }

    /// Five failures in fifteen minutes lock for thirty; sessions and refresh
    /// tokens last seven days, access tokens one hour; three resends an hour.
    pub fn standard() -> (r: AuthConfig)
        ensures
            r.wf(),
            r.lock.max_attempts == 5,
            r.lock.lockout_window_secs == 15 * 60,
            r.lock.lockout_duration_secs == 30 * 60,
            r.session_ttl_secs == 7 * 24 * 3600,
            r.access_ttl_secs == 3600,
            r.refresh_ttl_secs == 7 * 24 * 3600,
            r.profile_ttl_secs == 88640,
            r.max_resends_per_hour == 3,
    {
        AuthConfig {
            lock: LockPolicy::standard(),
            session_ttl_secs: 7 * 24 * 3600,
            access_ttl_secs: 3600,
            refresh_ttl_secs: 7 * 24 * 3600,
            profile_ttl_secs: 88640,
            max_resends_per_hour: 3,
        }
    }
}

/// The first registration precondition that fails: email shape, email
/// taken, password, full name, phone shape, phone taken, age.
pub open spec fn registration_check(
    c: &RegisterUserCommand,
    email_in_use: bool,
    phone_in_use: bool,
    today: CalendarDate,
) -> Option<AuthError> {
    if email_violation(regex_outcome(EMAIL_PATTERN@, c.email@)) is Some {
        email_violation(regex_outcome(EMAIL_PATTERN@, c.email@))
    } else if email_in_use {
        Some(AuthError::Conflict(ConflictField::Email))
    } else if password_violation(c.password@) is Some {
        password_violation(c.password@)
    } else if full_name_violation(c.full_name@) is Some {
        full_name_violation(c.full_name@)
    } else if c.phone_number is Some && phone_violation(
        regex_outcome(PHONE_PATTERN@, c.phone_number->Some_0@),
    ) is Some {
        phone_violation(regex_outcome(PHONE_PATTERN@, c.phone_number->Some_0@))
    } else if c.phone_number is Some && phone_in_use {
        Some(AuthError::Conflict(ConflictField::Phone))
    } else {
        age_violation(c.date_of_birth, MINIMUM_AGE, today)
    }
}

/// Checks a registration against its preconditions, first failure first.
/// Whether email or phone are taken is looked up by the caller.
pub fn validate_registration(
    command: &RegisterUserCommand,
    email_in_use: bool,
    phone_in_use: bool,
    today: CalendarDate,
) -> (r: AppResult<()>)
    requires
        today.wf(),
        command.date_of_birth matches Some(d) ==> d.wf(),
    ensures
        r == rule_outcome(registration_check(command, email_in_use, phone_in_use, today)),
{
    EmailMustBeValid { email: command.email.clone() }.check_broken()?;
    EmailMustBeUnique { is_unique: !email_in_use }.check_broken()?;
    PasswordMustMeetRequirements { password: command.password.clone() }.check_broken()?;
    FullNameMustBeValid { full_name: command.full_name.clone() }.check_broken()?;
    if let Some(phone) = &command.phone_number {
        PhoneMustBeValid { phone: phone.clone() }.check_broken()?;
        PhoneMustBeUnique { is_unique: !phone_in_use }.check_broken()?;
    }
    UserMustBeAtLeastAge {
        date_of_birth: command.date_of_birth,
        minimum_age: MINIMUM_AGE,
        today,
    }.check_broken()
}

/// The account that a registration stores: built from the command, with the
/// password hash in place of the password and a verification token.
pub fn build_registration(
    command: &RegisterUserCommand,
    password_hash: String,
    token: String,
    token_expiry: i64,
    today: CalendarDate,
    now: i64,
) -> (r: AppResult<ModelEx>)
    requires
        today.wf(),
        command.date_of_birth matches Some(d) ==> d.wf(),
    ensures
        match registration_violation(
            command.email@,
            command.password@,
            command.full_name@,
            command.phone_number,
            command.date_of_birth,
            today,
        ) {
            Some(e) => r == Err::<ModelEx, AuthError>(e),
            None => r matches Ok(m) && {
                &&& is_registration_model(
                    (ModelEx {
                        password: Some(command.password),
                        verification_token: None,
                        verification_token_expiry: None,
                        ..m
                    }),
                    command.email,
                    command.password,
                    command.full_name@,
                    command.phone_number,
                    command.date_of_birth,
                    now,
                )
                &&& m.password == Some(password_hash)
                &&& m.verification_token == Some(token)
                &&& m.verification_token_expiry == Some(token_expiry)
            },
        },
{
    let mut m = ModelEx::create_user_for_registration(
        command.email.clone(),
        command.password.clone(),
        command.full_name.clone(),
        clone_opt(&command.phone_number),
        command.date_of_birth,
        today,
        now,
    )?;
    m.password = Some(password_hash);
    m.verification_token = Some(token);
    m.verification_token_expiry = Some(token_expiry);
    Ok(m)
}

/// Where the events of registrations go.
pub const USER_REGISTERED_TOPIC: &'static str = "user_registered";

/// Where the events of logins go.
pub const USER_LOGGED_IN_TOPIC: &'static str = "user_logged_in";

/// Published after a registration.
pub struct UserRegisteredEvent {
    pub user_id: i64,
    pub email: String,
    pub display_name: String,
    pub verification_token: String,
    pub created_at: i64,
}

/// The event of a stored registration; without a creation time, `now`.
pub fn registered_event(created: &ModelEx, now: i64) -> (r: UserRegisteredEvent)
    ensures
        r.user_id == created.id,
        r.email@ == created.email@,
        r.display_name@ == display_name(*created),
        r.verification_token@ == match created.verification_token {
            Some(t) => t@,
            None => Seq::<char>::empty(),
        },
        r.created_at == match created.created_at {
            Some(t) => t,
            None => now,
        },
{
    let token = match &created.verification_token {
        Some(t) => t.clone(),
        None => String::new(),
    };
    UserRegisteredEvent {
        user_id: created.id,
        email: created.email.clone(),
        display_name: full_name_of(created),
        verification_token: token,
        created_at: match created.created_at {
            Some(t) => t,
            None => now,
        },
    }
}

/// The confirmation that a registration answers with.
pub fn created_confirmation(created: &ModelEx) -> (r: UserCreatedSerializer)
    ensures
        r.user_id@ == decimal(created.id as int),
        r.email@ == created.email@,
        r.message@ == "Please check your email to verify account"@,
{
    UserCreatedSerializer {
        user_id: decimal_string(created.id),
        email: created.email.clone(),
        message: String::from_str("Please check your email to verify account"),
    }
}

/// Verifies the email of the account that holds the token, if any.
pub fn verify_email_flow(found: Option<ModelEx>, now: i64) -> (r: AppResult<ModelEx>)
    ensures
        r == match found {
            Some(m) => spec_verify_email(m, now),
            None => Err(AuthError::VerificationTokenUnknown),
        },
{
    match found {
        Some(m) => m.verify_email(now),
        None => Err(AuthError::VerificationTokenUnknown),
    }
}

/// Prepares a resend for the account with the email, if any.
pub fn resend_verification_flow(
    found: Option<ModelEx>,
    new_token: String,
    new_expiry: i64,
    now: i64,
    config: &AuthConfig,
) -> (r: AppResult<ModelEx>)
    ensures
        r == match found {
            Some(m) => spec_prepare_resend(
                m,
                new_token,
                new_expiry,
                now,
                config.max_resends_per_hour,
            ),
            None => Err(AuthError::NotFound),
        },
{
    match found {
        Some(m) => m.prepare_resend_verification(new_token, new_expiry, now, config.max_resends_per_hour),
        None => Err(AuthError::NotFound),
    }
}

/// The first two steps of a login: an unknown email reports invalid
/// credentials, and a lock in force rejects before the password is checked.
pub fn begin_login(found: Option<ModelEx>, now: i64) -> (r: AppResult<ModelEx>)
    ensures
        match found {
            None => r == Err::<ModelEx, AuthError>(AuthError::InvalidCredentials),
            Some(m) => match spec_login_attempt(m, now) {
                Err(e) => r == Err::<ModelEx, AuthError>(e),
                Ok(_) => r == Ok::<ModelEx, AuthError>(m),
            },
        },
{
    match found {
        None => Err(AuthError::InvalidCredentials),
        Some(m) => {
            m.validate_login_attempt(now)?;
            Ok(m)
        },
    }
}

/// The account to store after the password check, and whether the login
/// goes on: a mismatch records the failure and reports invalid credentials.
pub fn conclude_password_check(
    account: ModelEx,
    password_ok: bool,
    config: &AuthConfig,
    now: i64,
) -> (r: (ModelEx, AppResult<()>))
    requires
        config.wf(),
    ensures
        password_ok ==> r.0 == spec_successful_login(account, now) && r.1 is Ok,
        !password_ok ==> r.0 == spec_failed_login(account, config.lock, now) && r.1 == Err::<
            (),
            AuthError,
        >(AuthError::InvalidCredentials),
{
    if password_ok {
        (account.handle_successful_login(now), Ok(()))
    } else {
        (account.handle_failed_login(&config.lock, now), Err(AuthError::InvalidCredentials))
    }
}

/// The store key of a session.
pub open spec fn session_key_of(session_id: Seq<char>) -> Seq<char> {
    "refresh_token:session:"@ + session_id
}

/// The store key of a cached profile.
pub open spec fn profile_key_of(user_id: i64) -> Seq<char> {
    "profile:user_id:"@ + decimal(user_id as int)
}

/// The store key of the session `session_id`.
pub fn session_key(session_id: &str) -> (r: String)
    ensures
        r@ == session_key_of(session_id@),
{
    String::from_str("refresh_token:session:").concat(session_id)
}

/// The store key of the cached profile of `user_id`.
pub fn profile_key(user_id: i64) -> (r: String)
    ensures
        r@ == profile_key_of(user_id),
{
    String::from_str("profile:user_id:").concat(decimal_string(user_id).as_str())
}

/// Records a new session, valid for the configured session lifetime.
pub fn open_session(store: &mut SessionStore, session_id: &str, config: &AuthConfig, now: i64)
    requires
        config.wf(),
    ensures
        final(store)@ == old(store)@.insert(
            session_key_of(session_id@),
            (session_id@, spec_add_secs(now, config.session_ttl_secs)),
        ),
{
    let key = session_key(session_id);
    store.set_with_expiry(key.as_str(), session_id, config.session_ttl_secs, now);
}

/// The claims of the access and the refresh token of a session.
pub fn issue_claims(user_id: i64, session_id: &str, config: &AuthConfig, now: i64) -> (r: (
    UserClaims,
    UserClaims,
))
    requires
        config.wf(),
    ensures
        r.0.iat == now && r.1.iat == now,
        r.0.exp == spec_add_secs(now, config.access_ttl_secs),
        r.1.exp == spec_add_secs(now, config.refresh_ttl_secs),
        r.0.user_id == user_id && r.1.user_id == user_id,
        r.0.sid@ == session_id@ && r.1.sid@ == session_id@,
{
    (
        UserClaims::new(config.access_ttl_secs, &user_id, session_id, now),
        UserClaims::new(config.refresh_ttl_secs, &user_id, session_id, now),
    )
}

/// The answer to a login: both tokens, the access token's lifetime, and the
/// account.
pub fn login_response(
    account: &ModelEx,
    access_token: String,
    refresh_token: String,
    config: &AuthConfig,
) -> (r: TokenResponse)
    requires
        config.wf(),
    ensures
        r.access_token == access_token,
        r.refresh_token == refresh_token,
        r.expires_in == config.access_ttl_secs as u64,
        r.user.id@ == decimal(account.id as int),
        r.user.email@ == account.email@,
        r.user.full_name@ == display_name(*account),
        r.user.role@ == role_name(account.role),
{
    TokenResponse::new(
        access_token,
        refresh_token,
        config.access_ttl_secs as u64,
        UserInfo::from_account(account),
    )
}

/// Published after a login.
pub struct UserLoggedInEvent {
    pub user_id: i64,
    pub email: String,
    pub session_id: String,
    pub device_info: Option<DeviceInfo>,
    pub occurred_at: i64,
}

/// The event of a successful login at `now`.
pub fn logged_in_event(
    account: &ModelEx,
    session_id: &str,
    device_info: Option<DeviceInfo>,
    now: i64,
) -> (r: UserLoggedInEvent)
    ensures
        r.user_id == account.id,
        r.email@ == account.email@,
        r.session_id@ == session_id@,
        r.device_info == device_info,
        r.occurred_at == now,
{
    UserLoggedInEvent {
        user_id: account.id,
        email: account.email.clone(),
        session_id: String::from_str(session_id),
        device_info,
        occurred_at: now,
    }
}

/// What a logout leaves of a store: no session record and no cached profile.
pub open spec fn after_logout(
    m: Map<Seq<char>, (Seq<char>, i64)>,
    session_id: Seq<char>,
    user_id: i64,
) -> Map<Seq<char>, (Seq<char>, i64)> {
    m.remove(session_key_of(session_id)).remove(profile_key_of(user_id))
}

/// Ends a session: removes the session record and the cached profile of the
/// user. Absent entries are no error, so logging out twice succeeds twice.
pub fn logout(store: &mut SessionStore, session_id: &str, user_id: i64, now: i64) -> (r: AppResult<()>)
    ensures
        r is Ok,
        final(store)@ == after_logout(old(store)@, session_id@, user_id),
{
    let skey = session_key(session_id);
    let _ = store.delete(skey.as_str(), now);
    evict_profile(store, user_id, now);
    Ok(())
}

/// The cached profile payload of a user, where one is live; a miss sends
/// the read to the account store.
pub fn cached_profile(store: &SessionStore, user_id: i64, now: i64) -> (r: Option<String>)
    ensures
        match r {
            Some(v) => is_live(store@, profile_key_of(user_id), now) && v@ == store@[profile_key_of(
                user_id,
            )].0,
            None => !is_live(store@, profile_key_of(user_id), now),
        },
{
    let key = profile_key(user_id);
    store.get(key.as_str(), now)
}

/// Caches a profile payload loaded from the account store.
pub fn remember_profile(
    store: &mut SessionStore,
    user_id: i64,
    payload: &str,
    config: &AuthConfig,
    now: i64,
)
    requires
        config.wf(),
    ensures
        final(store)@ == old(store)@.insert(
            profile_key_of(user_id),
            (payload@, spec_add_secs(now, config.profile_ttl_secs)),
        ),
{
    let key = profile_key(user_id);
    store.set_with_expiry(key.as_str(), payload, config.profile_ttl_secs, now);
}

/// Drops the cached profile of a user.
pub fn evict_profile(store: &mut SessionStore, user_id: i64, now: i64)
    ensures
        final(store)@ == old(store)@.remove(profile_key_of(user_id)),
{
    let key = profile_key(user_id);
    let _ = store.delete(key.as_str(), now);
}

/// Changes an account: a new email that another account uses is a
/// conflict; then the request is applied and the cached profile evicted.
pub fn apply_profile_update(
    store: &mut SessionStore,
    existing: ModelEx,
    request: &UpdateUserRequest,
    email_in_use: bool,
    now: i64,
) -> (r: AppResult<ModelEx>)
    ensures
        ({
            let changes_email = request.email matches Some(e) && e@ != existing.email@;
            if changes_email && email_in_use {
                &&& r == Err::<ModelEx, AuthError>(AuthError::Conflict(ConflictField::Email))
                &&& final(store)@ == old(store)@
            } else if update_user_violation(request) is Some {
                &&& r == Err::<ModelEx, AuthError>(update_user_violation(request)->Some_0)
                &&& final(store)@ == old(store)@
            } else {
                &&& r == Ok::<ModelEx, AuthError>(
                    (ModelEx {
                        first_name: or_keep(request.first_name, existing.first_name),
                        last_name: or_keep(request.last_name, existing.last_name),
                        email: or_keep(request.email, existing.email),
                        avatar: or_keep_opt(request.avatar, existing.avatar),
                        birth_of_date: or_keep_opt(request.birth_of_date, existing.birth_of_date),
                        phone_number: or_keep_opt(request.phone_number, existing.phone_number),
                        status: or_keep(request.status, existing.status),
                        ..existing
                    }),
                )
                &&& final(store)@ == old(store)@.remove(profile_key_of(existing.id))
            }
        }),
{
    if let Some(email) = &request.email {
        if !(*email == existing.email) && email_in_use {
            return Err(AuthError::Conflict(ConflictField::Email));
        }
    }
    let id = existing.id;
    let updated = existing.update_from(request)?;
    evict_profile(store, id, now);
    Ok(updated)
}

/// The uniqueness checks of an account created by an administrator:
/// username first, then email.
pub fn check_new_user(username_in_use: bool, email_in_use: bool) -> (r: AppResult<()>)
    ensures
        r == if username_in_use {
            Err(AuthError::Conflict(ConflictField::Username))
        } else if email_in_use {
            Err(AuthError::Conflict(ConflictField::Email))
        } else {
            Ok(())
        },
{
    if username_in_use {
        return Err(AuthError::Conflict(ConflictField::Username));
    }
    if email_in_use {
        return Err(AuthError::Conflict(ConflictField::Email));
    }
    Ok(())
}

/// Soft-deletes the account found, if any, and evicts its cached profile.
pub fn delete_flow(store: &mut SessionStore, found: Option<ModelEx>, now: i64) -> (r: AppResult<
    ModelEx,
>)
    ensures
        match found {
            None => r == Err::<ModelEx, AuthError>(AuthError::NotFound) && final(store)@ == old(
                store,
            )@,
            Some(m) => r == Ok::<ModelEx, AuthError>(
                (ModelEx { is_deleted: true, deleted_at: Some(now), ..m }),
            ) && final(store)@ == old(store)@.remove(profile_key_of(m.id)),
        },
{
    match found {
        None => Err(AuthError::NotFound),
        Some(m) => {
            evict_profile(store, m.id, now);
            Ok(m.mark_deleted(now))
        },
    }
}

} // verus!
