use vstd::prelude::*;
use crate::address;
use crate::date::CalendarDate;
use crate::error::{AppResult, AuthError, ValidationIssue};
use crate::lock_policy::{
    decide_lock, effective_attempts, spec_decide_lock, spec_effective_attempts,
    LockPolicy,
};
use crate::rules::{
    age_violation, email_violation, full_name_violation, locked_error, password_violation,
    phone_violation, resent_within_hour, AccountMustNotBeLocked, BusinessRuleInterface,
    EmailMustBeValid, FullNameMustBeValid, PasswordMustMeetRequirements, PhoneMustBeValid,
    UserMustBeAtLeastAge, UserMustNotBeAlreadyVerified, VerificationResendLimitMustNotBeExceeded,
    VerificationTokenMustNotBeExpired, EMAIL_PATTERN, PHONE_PATTERN, RESEND_WINDOW_SECS,
};
use crate::text::{
    all_whitespace, clone_opt, contains_char, has_char, is_blank, is_local_part, join_from,
    join_words, lemma_words_of_non_blank, local_part, regex_outcome, split_words, texts_of, whitespace_words,
};

verus! {

/// Where an account is in its lifecycle.
#[derive(Debug, Clone, Copy, PartialEq, Eq, Structural)]
pub enum Status {
    PENDING,
    ACTIVE,
    INACTIVE,
}

/// The authorization tier of an account.
#[derive(Debug, Clone, Copy, PartialEq, Eq, Structural)]
pub enum Role {
    CUSTOMER,
    ADMIN,
}

/// Youngest age at which an account may be registered.
pub const MINIMUM_AGE: u32 = 13;

/// A user account: identity, credentials, lifecycle and brute-force state.
/// Times are seconds since the Unix epoch.
#[derive(Debug, Clone)]
pub struct ModelEx {
    pub id: i64,
    pub avatar: Option<String>,
    pub first_name: String,
    pub last_name: String,
    pub username: String,
    pub email: String,
    pub password: Option<String>,
    pub birth_of_date: Option<CalendarDate>,
    pub address: Vec<address::ModelEx>,
    pub phone_number: Option<String>,
    pub status: Status,
    pub role: Role,
    pub is_deleted: bool,
    pub failed_login_attempts: u32,
    pub last_failed_login_at: Option<i64>,
    pub account_locked_until: Option<i64>,
    pub last_login_at: Option<i64>,
    pub verification_token: Option<String>,
    pub verification_token_expiry: Option<i64>,
    pub email_verified_at: Option<i64>,
    pub verification_resend_count: u32,
    pub last_verification_resend_at: Option<i64>,
    pub created_at: Option<i64>,
    pub updated_at: Option<i64>,
    pub deleted_at: Option<i64>,
}

pub type Model = ModelEx;

/// The first registration rule that the input breaks, in the order email,
/// password, full name, phone, age.
pub open spec fn registration_violation(
    email: Seq<char>,
    password: Seq<char>,
    full_name: Seq<char>,
    phone_number: Option<String>,
    date_of_birth: Option<CalendarDate>,
    today: CalendarDate,
) -> Option<AuthError> {
    if email_violation(regex_outcome(EMAIL_PATTERN@, email)) is Some {
        email_violation(regex_outcome(EMAIL_PATTERN@, email))
    } else if password_violation(password) is Some {
        password_violation(password)
    } else if full_name_violation(full_name) is Some {
        full_name_violation(full_name)
    } else if phone_number is Some && phone_violation(
        regex_outcome(PHONE_PATTERN@, phone_number->Some_0@),
    ) is Some {
        phone_violation(regex_outcome(PHONE_PATTERN@, phone_number->Some_0@))
    } else {
        age_violation(date_of_birth, MINIMUM_AGE, today)
    }
}

/// Whether `m` is the account that registration builds from these inputs:
/// pending, a customer, with the name split into its first word and the rest.
pub open spec fn is_registration_model(
    m: ModelEx,
    email: String,
    password: String,
    full_name: Seq<char>,
    phone_number: Option<String>,
    date_of_birth: Option<CalendarDate>,
    now: i64,
) -> bool {
    let words = whitespace_words(full_name);
    &&& m.id == 0
    &&& m.avatar is None
    &&& m.first_name@ == words[0]
    &&& m.last_name@ == join_words(words.drop_first())
    &&& is_local_part(email@, m.username@)
    &&& m.email == email
    &&& m.password == Some(password)
    &&& m.birth_of_date == date_of_birth
    &&& m.address@.len() == 0
    &&& m.phone_number == phone_number
    &&& m.status == Status::PENDING
    &&& m.role == Role::CUSTOMER
    &&& !m.is_deleted
    &&& m.failed_login_attempts == 0
    &&& m.last_failed_login_at is None
    &&& m.account_locked_until is None
    &&& m.last_login_at is None
    &&& m.verification_token is None
    &&& m.verification_token_expiry is None
    &&& m.email_verified_at is None
    &&& m.verification_resend_count == 0
    &&& m.last_verification_resend_at is None
    &&& m.created_at == Some(now)
    &&& m.updated_at == Some(now)
    &&& m.deleted_at is None
}

/// The fields of an account created by an administrator.
pub struct CreateUserRequest {
    pub avatar: Option<String>,
    pub first_name: String,
    pub last_name: String,
    pub username: String,
    pub email: String,
    pub password: String,
    pub birth_of_date: Option<CalendarDate>,
    pub phone_number: Option<String>,
}

/// The fields of an account to change; `None` keeps a field.
pub struct UpdateUserRequest {
    pub avatar: Option<String>,
    pub first_name: Option<String>,
    pub last_name: Option<String>,
    pub email: Option<String>,
    pub birth_of_date: Option<CalendarDate>,
    pub phone_number: Option<String>,
    pub status: Option<Status>,
}

/// The first field of a new account that is blank or malformed.
pub open spec fn create_user_violation(r: &CreateUserRequest) -> Option<AuthError> {
    if all_whitespace(r.first_name@) {
        Some(AuthError::Validation(ValidationIssue::FirstNameRequired))
    } else if all_whitespace(r.last_name@) {
        Some(AuthError::Validation(ValidationIssue::LastNameRequired))
    } else if all_whitespace(r.email@) {
        Some(AuthError::Validation(ValidationIssue::EmailRequired))
    } else if !has_char(r.email@, '@') {
        Some(AuthError::Validation(ValidationIssue::EmailFormat))
    } else {
        None
    }
}

/// The first field given in an update that is blank or malformed.
pub open spec fn update_user_violation(r: &UpdateUserRequest) -> Option<AuthError> {
    if r.first_name is Some && all_whitespace(r.first_name->Some_0@) {
        Some(AuthError::Validation(ValidationIssue::FirstNameRequired))
    } else if r.last_name is Some && all_whitespace(r.last_name->Some_0@) {
        Some(AuthError::Validation(ValidationIssue::LastNameRequired))
    } else if r.email is Some && all_whitespace(r.email->Some_0@) {
        Some(AuthError::Validation(ValidationIssue::EmailRequired))
    } else if r.email is Some && !has_char(r.email->Some_0@, '@') {
        Some(AuthError::Validation(ValidationIssue::EmailFormat))
    } else {
        None
    }
}

/// The account after a verification at `now`, or the rule it breaks.
pub open spec fn spec_verify_email(m: ModelEx, now: i64) -> AppResult<ModelEx> {
    if m.email_verified_at is Some {
        Err(AuthError::AlreadyVerified)
    } else if m.verification_token_expiry is None {
        Err(AuthError::VerificationExpiryMissing)
    } else if now > m.verification_token_expiry->Some_0 {
        Err(AuthError::VerificationTokenExpired)
    } else {
        Ok(
            ModelEx {
                status: Status::ACTIVE,
                email_verified_at: Some(now),
                verification_token: None,
                verification_token_expiry: None,
                updated_at: Some(now),
                ..m
            },
        )
    }
}

/// The resend count that holds at `now`: a count older than the window is
/// treated as zero.
pub open spec fn effective_resend_count(m: ModelEx, now: i64) -> u32 {
    match m.last_verification_resend_at {
        Some(t) => if t <= now - RESEND_WINDOW_SECS {
            0
        } else {
            m.verification_resend_count
        },
        None => m.verification_resend_count,
    }
}

/// `n + 1`, held at the largest `u32`.
pub open spec fn bump(n: u32) -> u32 {
    if n == u32::MAX {
        n
    } else {
        (n + 1) as u32
    }
}

/// The account after a resend at `now` with a new token, or the rule it breaks.
pub open spec fn spec_prepare_resend(
    m: ModelEx,
    new_token: String,
    new_expiry: i64,
    now: i64,
    max_per_hour: u32,
) -> AppResult<ModelEx> {
    let count = effective_resend_count(m, now);
    if m.email_verified_at is Some {
        Err(AuthError::AlreadyVerified)
    } else if resent_within_hour(m.last_verification_resend_at, now) && count >= max_per_hour {
        Err(AuthError::RateLimited { max_per_hour })
    } else {
        Ok(
            ModelEx {
                verification_token: Some(new_token),
                verification_token_expiry: Some(new_expiry),
                verification_resend_count: bump(count),
                last_verification_resend_at: Some(now),
                updated_at: Some(now),
                ..m
            },
        )
    }
}

/// The account after a failed login at `now`: the counter that still counts
/// goes up by one, and reaching the threshold locks the account.
pub open spec fn spec_failed_login(m: ModelEx, policy: LockPolicy, now: i64) -> ModelEx {
    let attempts = bump(
        spec_effective_attempts(
            m.failed_login_attempts,
            m.last_failed_login_at,
            now,
            policy.lockout_window_secs,
        ),
    );
    ModelEx {
        failed_login_attempts: attempts,
        last_failed_login_at: Some(now),
        account_locked_until: match spec_decide_lock(policy, attempts, now) {
            Some(until) => Some(until),
            None => m.account_locked_until,
        },
        updated_at: Some(now),
        ..m
    }
}

/// The account after a successful login at `now`: counter and lock cleared.
pub open spec fn spec_successful_login(m: ModelEx, now: i64) -> ModelEx {
    ModelEx {
        failed_login_attempts: 0,
        account_locked_until: None,
        last_login_at: Some(now),
        updated_at: Some(now),
        ..m
    }
}

/// The check that runs before the password: a lock in force rejects.
pub open spec fn spec_login_attempt(m: ModelEx, now: i64) -> AppResult<()> {
    match m.account_locked_until {
        Some(until) => if now < until {
            Err(locked_error(until, now))
        } else {
            Ok(())
        },
        None => Ok(()),
    }
}

fn take_or(new: &Option<String>, old: String) -> (r: String)
    ensures
        r == address::or_keep(*new, old),
{
    match new {
        Some(v) => v.clone(),
        None => old,
    }
}

impl ModelEx {
    /// A pending customer account for a registration, after the registration
    /// rules: email, password, full name, phone where given, and age on `today`.
    /// The password is kept as given, for the caller to hash before saving.
    pub fn create_user_for_registration(
        email: String,
        password: String,
        full_name: String,
        phone_number: Option<String>,
        date_of_birth: Option<CalendarDate>,
        today: CalendarDate,
        now: i64,
    ) -> (r: AppResult<Self>)
        requires
            today.wf(),
            date_of_birth matches Some(d) ==> d.wf(),
        ensures
            match registration_violation(
                email@,
                password@,
                full_name@,
                phone_number,
                date_of_birth,
                today,
            ) {
                Some(e) => r == Err::<Self, AuthError>(e),
                None => r matches Ok(m) && is_registration_model(
                    m,
                    email,
                    password,
                    full_name@,
                    phone_number,
                    date_of_birth,
                    now,
                ),
            },
    {
        EmailMustBeValid { email: email.clone() }.check_broken()?;
        PasswordMustMeetRequirements { password: password.clone() }.check_broken()?;
        FullNameMustBeValid { full_name: full_name.clone() }.check_broken()?;
        if let Some(phone) = &phone_number {
            PhoneMustBeValid { phone: phone.clone() }.check_broken()?;
        }
        UserMustBeAtLeastAge { date_of_birth, minimum_age: MINIMUM_AGE, today }.check_broken()?;
        let words = split_words(full_name.as_str());
        proof {
            lemma_words_of_non_blank(full_name@);
        }
        let first_name = words[0].clone();
        let last_name = join_from(&words, 1);
        proof {
            let ws = whitespace_words(full_name@);
            assert(texts_of(words@.subrange(1, words@.len() as int)) =~= ws.drop_first());
        }
        let username = local_part(email.as_str());
        Ok(ModelEx {
            id: 0,
            avatar: None,
            first_name,
            last_name,
            username,
            email,
            password: Some(password),
            birth_of_date: date_of_birth,
            address: Vec::new(),
            phone_number,
            status: Status::PENDING,
            role: Role::CUSTOMER,
            is_deleted: false,
            failed_login_attempts: 0,
            last_failed_login_at: None,
            account_locked_until: None,
            last_login_at: None,
            verification_token: None,
            verification_token_expiry: None,
            email_verified_at: None,
            verification_resend_count: 0,
            last_verification_resend_at: None,
            created_at: Some(now),
            updated_at: Some(now),
            deleted_at: None,
        })
    }

    /// A pending customer account from an administrator's request, after
    /// checking that names and email are not blank and the email holds `@`.
    pub fn create_new_user(request: &CreateUserRequest, now: i64) -> (r: AppResult<Self>)
        ensures
            match create_user_violation(request) {
                Some(e) => r == Err::<Self, AuthError>(e),
                None => r matches Ok(m) && m.id == 0 && m.avatar == request.avatar && m.first_name
                    == request.first_name && m.last_name == request.last_name && m.username
                    == request.username && m.email == request.email && m.password == Some(
                    request.password,
                ) && m.birth_of_date == request.birth_of_date && m.address@.len() == 0
                    && m.phone_number == request.phone_number && m.status == Status::PENDING
                    && m.role == Role::CUSTOMER && !m.is_deleted && m.failed_login_attempts == 0
                    && m.last_failed_login_at is None && m.account_locked_until is None
                    && m.last_login_at is None && m.verification_token is None
                    && m.verification_token_expiry is None && m.email_verified_at is None
                    && m.verification_resend_count == 0 && m.last_verification_resend_at is None
                    && m.created_at == Some(now) && m.updated_at == Some(now) && m.deleted_at is None,
            },
    {
        if is_blank(request.first_name.as_str()) {
            return Err(AuthError::Validation(ValidationIssue::FirstNameRequired));
        }
        if is_blank(request.last_name.as_str()) {
            return Err(AuthError::Validation(ValidationIssue::LastNameRequired));
        }
        if is_blank(request.email.as_str()) {
            return Err(AuthError::Validation(ValidationIssue::EmailRequired));
        }
        if !contains_char(request.email.as_str(), '@') {
            return Err(AuthError::Validation(ValidationIssue::EmailFormat));
        }
        Ok(ModelEx {
            id: 0,
            avatar: clone_opt(&request.avatar),
            first_name: request.first_name.clone(),
            last_name: request.last_name.clone(),
            username: request.username.clone(),
            email: request.email.clone(),
            password: Some(request.password.clone()),
            birth_of_date: request.birth_of_date,
            address: Vec::new(),
            phone_number: clone_opt(&request.phone_number),
            status: Status::PENDING,
            role: Role::CUSTOMER,
            is_deleted: false,
            failed_login_attempts: 0,
            last_failed_login_at: None,
            account_locked_until: None,
            last_login_at: None,
            verification_token: None,
            verification_token_expiry: None,
            email_verified_at: None,
            verification_resend_count: 0,
            last_verification_resend_at: None,
            created_at: Some(now),
            updated_at: Some(now),
            deleted_at: None,
        })
    }

    /// Applies the fields given in the request, after checking that no name
    /// or email is made blank and that a new email holds `@`.
    pub fn update_from(self, request: &UpdateUserRequest) -> (r: AppResult<Self>)
        ensures
            match update_user_violation(request) {
                Some(e) => r == Err::<Self, AuthError>(e),
                None => r == Ok::<Self, AuthError>(
                    (ModelEx {
                        first_name: address::or_keep(request.first_name, self.first_name),
                        last_name: address::or_keep(request.last_name, self.last_name),
                        email: address::or_keep(request.email, self.email),
                        avatar: address::or_keep_opt(request.avatar, self.avatar),
                        birth_of_date: address::or_keep_opt(request.birth_of_date, self.birth_of_date),
                        phone_number: address::or_keep_opt(request.phone_number, self.phone_number),
                        status: address::or_keep(request.status, self.status),
                        ..self
                    }),
                ),
            },
    {
        if let Some(first_name) = &request.first_name {
            if is_blank(first_name.as_str()) {
                return Err(AuthError::Validation(ValidationIssue::FirstNameRequired));
            }
        }
        if let Some(last_name) = &request.last_name {
            if is_blank(last_name.as_str()) {
                return Err(AuthError::Validation(ValidationIssue::LastNameRequired));
            }
        }
        if let Some(email) = &request.email {
            if is_blank(email.as_str()) {
                return Err(AuthError::Validation(ValidationIssue::EmailRequired));
            }
            if !contains_char(email.as_str(), '@') {
                return Err(AuthError::Validation(ValidationIssue::EmailFormat));
            }
        }
        let mut m = self;
        m.first_name = take_or(&request.first_name, m.first_name);
        m.last_name = take_or(&request.last_name, m.last_name);
        m.email = take_or(&request.email, m.email);
        if let Some(avatar) = &request.avatar {
            m.avatar = Some(avatar.clone());
        }
        if let Some(d) = request.birth_of_date {
            m.birth_of_date = Some(d);
        }
        if let Some(phone) = &request.phone_number {
            m.phone_number = Some(phone.clone());
        }
        if let Some(status) = request.status {
            m.status = status;
        }
        Ok(m)
    }

    /// Completes email verification at `now`: refused when verified already
    /// or when the token has expired; else the account turns active and the
    /// token is cleared.
    pub fn verify_email(self, now: i64) -> (r: AppResult<Self>)
        ensures
            r == spec_verify_email(self, now),
    {
        UserMustNotBeAlreadyVerified { email_verified_at: self.email_verified_at }.check_broken()?;
        VerificationTokenMustNotBeExpired {
            token_expiry: self.verification_token_expiry,
            now,
        }.check_broken()?;
        let mut m = self;
        m.status = Status::ACTIVE;
        m.email_verified_at = Some(now);
        m.verification_token = None;
        m.verification_token_expiry = None;
        m.updated_at = Some(now);
        Ok(m)
    }

    /// Stores a new verification token for a resend at `now`, within the
    /// limit of `max_resends_per_hour`; a count older than an hour restarts.
    pub fn prepare_resend_verification(
        self,
        new_token: String,
        new_expiry: i64,
        now: i64,
        max_resends_per_hour: u32,
    ) -> (r: AppResult<Self>)
        ensures
            r == spec_prepare_resend(self, new_token, new_expiry, now, max_resends_per_hour),
    {
        UserMustNotBeAlreadyVerified { email_verified_at: self.email_verified_at }.check_broken()?;
        let mut m = self;
        if let Some(last) = m.last_verification_resend_at {
            if last as i128 <= now as i128 - RESEND_WINDOW_SECS as i128 {
                m.verification_resend_count = 0;
            }
        }
        VerificationResendLimitMustNotBeExceeded {
            resend_count: m.verification_resend_count,
            last_resend_at: m.last_verification_resend_at,
            max_resends_per_hour,
            now,
        }.check_broken()?;
        m.verification_token = Some(new_token);
        m.verification_token_expiry = Some(new_expiry);
        if m.verification_resend_count < u32::MAX {
            m.verification_resend_count = m.verification_resend_count + 1;
        }
        m.last_verification_resend_at = Some(now);
        m.updated_at = Some(now);
        Ok(m)
    }

    /// The check before the password on a login at `now`: a lock still in
    /// force rejects, reporting the minutes left.
    pub fn validate_login_attempt(&self, now: i64) -> (r: AppResult<()>)
        ensures
            r == spec_login_attempt(*self, now),
    {
        AccountMustNotBeLocked { account_locked_until: self.account_locked_until, now }.check_broken()
    }

    /// Records a failed login at `now` under `policy`.
    pub fn handle_failed_login(self, policy: &LockPolicy, now: i64) -> (r: Self)
        requires
            policy.wf(),
        ensures
            r == spec_failed_login(self, *policy, now),
    {
        let current = effective_attempts(
            self.failed_login_attempts,
            self.last_failed_login_at,
            now,
            policy.lockout_window_secs,
        );
        let attempts = if current < u32::MAX {
            current + 1
        } else {
            current
        };
        let mut m = self;
        m.failed_login_attempts = attempts;
        m.last_failed_login_at = Some(now);
        if let Some(until) = decide_lock(policy, attempts, now) {
            m.account_locked_until = Some(until);
        }
        m.updated_at = Some(now);
        m
    }

    /// Records a successful login at `now`.
    pub fn handle_successful_login(self, now: i64) -> (r: Self)
        ensures
            r == spec_successful_login(self, now),
    {
        let mut m = self;
        m.failed_login_attempts = 0;
        m.account_locked_until = None;
        m.last_login_at = Some(now);
        m.updated_at = Some(now);
        m
    }

    /// Marks the account deleted at `now`; the record itself stays.
    pub fn mark_deleted(self, now: i64) -> (r: Self)
        ensures
            r == (ModelEx { is_deleted: true, deleted_at: Some(now), ..self }),
    {
        let mut m = self;
        m.is_deleted = true;
        m.deleted_at = Some(now);
        m
    }
}

} // verus!
