use vstd::prelude::*;
use crate::date::CalendarDate;
use crate::error::{AppResult, AuthError, ConflictField, ValidationIssue};
use crate::text::{
    all_whitespace, has_lowercase, has_numeric, has_symbol, has_uppercase, is_blank,
    regex_matches, regex_outcome, some_lowercase, some_numeric, some_symbol, some_uppercase,
};
use crate::user::Status;
use vstd::utf8::encode_utf8;

verus! {

/// The shape an email address must have.
pub const EMAIL_PATTERN: &'static str = r"^[a-zA-Z0-9._%+-]+@[a-zA-Z0-9.-]+\.[a-zA-Z]{2,}$";

/// The shape a phone number must have: E.164-like, up to fifteen digits.
pub const PHONE_PATTERN: &'static str = r"^\+?[1-9]\d{1,14}$";

/// Longest full name accepted, in chars.
pub const MAX_FULL_NAME_CHARS: usize = 100;

/// Shortest password accepted, in bytes.
pub const MIN_PASSWORD_BYTES: usize = 8;

/// Seconds in the resend rate window.
pub const RESEND_WINDOW_SECS: i64 = 3600;

/// The result of a rule whose violation, if any, is `v`.
pub open spec fn rule_outcome(v: Option<AuthError>) -> AppResult<()> {
    match v {
        Some(e) => Err(e),
        None => Ok(()),
    }
}

/// A business rule: a condition on plain values that an operation must meet.
pub trait BusinessRuleInterface {
    /// The error the rule reports, or `None` where it holds.
    spec fn violation(&self) -> Option<AuthError>;

    fn check_broken(&self) -> (r: AppResult<()>)
        ensures
            r == rule_outcome(self.violation()),
    ;
}

/// Login needs an active account.
pub struct AccountMustBeActive {
    pub status: Status,
}

impl BusinessRuleInterface for AccountMustBeActive {
    open spec fn violation(&self) -> Option<AuthError> {
        if self.status != Status::ACTIVE {
            Some(AuthError::AccountNotActive)
        } else {
            None
        }
    }

    fn check_broken(&self) -> (r: AppResult<()>) {
        if self.status != Status::ACTIVE {
            return Err(AuthError::AccountNotActive);
        }
        Ok(())
    }
}

/// A lock in force at `now` rejects the login, with the minutes left.
pub struct AccountMustNotBeLocked {
    pub account_locked_until: Option<i64>,
    pub now: i64,
}

/// The error of a lock running until `until`, seen at `now`.
pub open spec fn locked_error(until: i64, now: i64) -> AuthError {
    AuthError::AccountLocked { remaining_minutes: ((until - now) / 60) as i64 }
}

impl BusinessRuleInterface for AccountMustNotBeLocked {
    open spec fn violation(&self) -> Option<AuthError> {
        match self.account_locked_until {
            Some(until) => if self.now < until {
                Some(locked_error(until, self.now))
            } else {
                None
            },
            None => None,
        }
    }

    fn check_broken(&self) -> (r: AppResult<()>) {
        if let Some(until) = self.account_locked_until {
            if self.now < until {
                let left: i128 = (until as i128 - self.now as i128) / 60;
                return Err(AuthError::AccountLocked { remaining_minutes: left as i64 });
            }
        }
        Ok(())
    }
}

/// The verdict on an email address, given what the pattern test gave.
pub open spec fn email_violation(outcome: Option<bool>) -> Option<AuthError> {
    match outcome {
        None => Some(AuthError::Validation(ValidationIssue::EmailPatternUnusable)),
        Some(false) => Some(AuthError::Validation(ValidationIssue::EmailFormat)),
        Some(true) => None,
    }
}

/// Turns the outcome of the email pattern test into the rule's result.
pub fn email_verdict(outcome: Option<bool>) -> (r: AppResult<()>)
    ensures
        r == rule_outcome(email_violation(outcome)),
{
    match outcome {
        None => Err(AuthError::Validation(ValidationIssue::EmailPatternUnusable)),
        Some(false) => Err(AuthError::Validation(ValidationIssue::EmailFormat)),
        Some(true) => Ok(()),
    }
}

/// The email address must have the shape of `EMAIL_PATTERN`.
pub struct EmailMustBeValid {
    pub email: String,
}

impl BusinessRuleInterface for EmailMustBeValid {
    open spec fn violation(&self) -> Option<AuthError> {
        email_violation(regex_outcome(EMAIL_PATTERN@, self.email@))
    }

    fn check_broken(&self) -> (r: AppResult<()>) {
        email_verdict(regex_matches(EMAIL_PATTERN, self.email.as_str()))
    }
}

/// No active account may use the email address already.
pub struct EmailMustBeUnique {
    pub is_unique: bool,
}

impl BusinessRuleInterface for EmailMustBeUnique {
    open spec fn violation(&self) -> Option<AuthError> {
        if !self.is_unique {
            Some(AuthError::Conflict(ConflictField::Email))
        } else {
            None
        }
    }

    fn check_broken(&self) -> (r: AppResult<()>) {
        if !self.is_unique {
            return Err(AuthError::Conflict(ConflictField::Email));
        }
        Ok(())
    }
}

/// Recent failures must stay under the threshold; failures older than the
/// window do not count.
pub struct FailedLoginLimitMustNotBeExceeded {
    pub failed_attempts: u32,
    pub last_failed_login_at: Option<i64>,
    pub max_attempts: u32,
    pub lockout_window_minutes: i64,
    pub now: i64,
}

impl BusinessRuleInterface for FailedLoginLimitMustNotBeExceeded {
    open spec fn violation(&self) -> Option<AuthError> {
        let window_elapsed = match self.last_failed_login_at {
            Some(t) => self.now - t >= self.lockout_window_minutes * 60,
            None => false,
        };
        let current = if window_elapsed {
            0
        } else {
            self.failed_attempts
        };
        if current >= self.max_attempts {
            Some(AuthError::TooManyFailedAttempts)
        } else {
            None
        }
    }

    fn check_broken(&self) -> (r: AppResult<()>) {
        let mut current = self.failed_attempts;
        if let Some(t) = self.last_failed_login_at {
            let window: i128 = self.lockout_window_minutes as i128 * 60;
            if self.now as i128 - t as i128 >= window {
                current = 0;
            }
        }
        if current >= self.max_attempts {
            return Err(AuthError::TooManyFailedAttempts);
        }
        Ok(())
    }
}

/// A full name must hold a non-whitespace char and at most
/// `MAX_FULL_NAME_CHARS` chars.
pub struct FullNameMustBeValid {
    pub full_name: String,
}

/// The verdict on a full name.
pub open spec fn full_name_violation(name: Seq<char>) -> Option<AuthError> {
    if all_whitespace(name) {
        Some(AuthError::Validation(ValidationIssue::FullNameRequired))
    } else if name.len() > MAX_FULL_NAME_CHARS {
        Some(AuthError::Validation(ValidationIssue::FullNameTooLong))
    } else {
        None
    }
}

impl BusinessRuleInterface for FullNameMustBeValid {
    open spec fn violation(&self) -> Option<AuthError> {
        full_name_violation(self.full_name@)
    }

    fn check_broken(&self) -> (r: AppResult<()>) {
        if is_blank(self.full_name.as_str()) {
            return Err(AuthError::Validation(ValidationIssue::FullNameRequired));
        }
        if self.full_name.as_str().unicode_len() > MAX_FULL_NAME_CHARS {
            return Err(AuthError::Validation(ValidationIssue::FullNameTooLong));
        }
        Ok(())
    }
}

/// The password strength policy: at least `MIN_PASSWORD_BYTES` bytes, and an
/// uppercase letter, a lowercase letter, a digit and a symbol.
pub open spec fn password_violation(p: Seq<char>) -> Option<AuthError> {
    if encode_utf8(p).len() < MIN_PASSWORD_BYTES {
        Some(AuthError::Validation(ValidationIssue::PasswordTooShort))
    } else if !some_uppercase(p) {
        Some(AuthError::Validation(ValidationIssue::PasswordMissingUppercase))
    } else if !some_lowercase(p) {
        Some(AuthError::Validation(ValidationIssue::PasswordMissingLowercase))
    } else if !some_numeric(p) {
        Some(AuthError::Validation(ValidationIssue::PasswordMissingDigit))
    } else if !some_symbol(p) {
        Some(AuthError::Validation(ValidationIssue::PasswordMissingSymbol))
    } else {
        None
    }
}

/// A password must meet the strength policy.
pub struct PasswordMustMeetRequirements {
    pub password: String,
}

impl BusinessRuleInterface for PasswordMustMeetRequirements {
    open spec fn violation(&self) -> Option<AuthError> {
        password_violation(self.password@)
    }

    fn check_broken(&self) -> (r: AppResult<()>) {
        let p = self.password.as_str();
        if p.as_bytes().len() < MIN_PASSWORD_BYTES {
            return Err(AuthError::Validation(ValidationIssue::PasswordTooShort));
        }
        if !has_uppercase(p) {
            return Err(AuthError::Validation(ValidationIssue::PasswordMissingUppercase));
        }
        if !has_lowercase(p) {
            return Err(AuthError::Validation(ValidationIssue::PasswordMissingLowercase));
        }
        if !has_numeric(p) {
            return Err(AuthError::Validation(ValidationIssue::PasswordMissingDigit));
        }
        if !has_symbol(p) {
            return Err(AuthError::Validation(ValidationIssue::PasswordMissingSymbol));
        }
        Ok(())
    }
}

/// No active account may use the phone number already.
pub struct PhoneMustBeUnique {
    pub is_unique: bool,
}

impl BusinessRuleInterface for PhoneMustBeUnique {
    open spec fn violation(&self) -> Option<AuthError> {
        if !self.is_unique {
            Some(AuthError::Conflict(ConflictField::Phone))
        } else {
            None
        }
    }

    fn check_broken(&self) -> (r: AppResult<()>) {
        if !self.is_unique {
            return Err(AuthError::Conflict(ConflictField::Phone));
        }
        Ok(())
    }
}

/// The verdict on a phone number, given what the pattern test gave.
pub open spec fn phone_violation(outcome: Option<bool>) -> Option<AuthError> {
    match outcome {
        None => Some(AuthError::Validation(ValidationIssue::PhonePatternUnusable)),
        Some(false) => Some(AuthError::Validation(ValidationIssue::PhoneFormat)),
        Some(true) => None,
    }
}

/// Turns the outcome of the phone pattern test into the rule's result.
pub fn phone_verdict(outcome: Option<bool>) -> (r: AppResult<()>)
    ensures
        r == rule_outcome(phone_violation(outcome)),
{
    match outcome {
        None => Err(AuthError::Validation(ValidationIssue::PhonePatternUnusable)),
        Some(false) => Err(AuthError::Validation(ValidationIssue::PhoneFormat)),
        Some(true) => Ok(()),
    }
}

/// A phone number must have the shape of `PHONE_PATTERN`.
pub struct PhoneMustBeValid {
    pub phone: String,
}

impl BusinessRuleInterface for PhoneMustBeValid {
    open spec fn violation(&self) -> Option<AuthError> {
        phone_violation(regex_outcome(PHONE_PATTERN@, self.phone@))
    }

    fn check_broken(&self) -> (r: AppResult<()>) {
        phone_verdict(regex_matches(PHONE_PATTERN, self.phone.as_str()))
    }
}

/// Where a birth date is given, the user is at least `minimum_age` years old
/// on `today`.
pub struct UserMustBeAtLeastAge {
    pub date_of_birth: Option<CalendarDate>,
    pub minimum_age: u32,
    pub today: CalendarDate,
}

impl UserMustBeAtLeastAge {
    pub open spec fn wf(&self) -> bool {
        self.today.wf() && match self.date_of_birth {
            Some(d) => d.wf(),
            None => true,
        }
    }
}

/// The verdict on a birth date, against `minimum_age` on `today`.
pub open spec fn age_violation(
    date_of_birth: Option<CalendarDate>,
    minimum_age: u32,
    today: CalendarDate,
) -> Option<AuthError> {
    match date_of_birth {
        Some(dob) => match today.spec_years_since(dob) {
            Some(age) => if age < minimum_age {
                Some(AuthError::Validation(ValidationIssue::TooYoung { minimum_age }))
            } else {
                None
            },
            None => Some(AuthError::Validation(ValidationIssue::InvalidBirthDate)),
        },
        None => None,
    }
}

impl BusinessRuleInterface for UserMustBeAtLeastAge {
    open spec fn violation(&self) -> Option<AuthError> {
        if !self.wf() {
            Some(AuthError::Validation(ValidationIssue::InvalidBirthDate))
        } else {
            age_violation(self.date_of_birth, self.minimum_age, self.today)
        }
    }

    fn check_broken(&self) -> (r: AppResult<()>) {
        if !(1 <= self.today.month && self.today.month <= 12 && 1 <= self.today.day
            && self.today.day <= 31) {
            return Err(AuthError::Validation(ValidationIssue::InvalidBirthDate));
        }
        if let Some(dob) = self.date_of_birth {
            if !(1 <= dob.month && dob.month <= 12 && 1 <= dob.day && dob.day <= 31) {
                return Err(AuthError::Validation(ValidationIssue::InvalidBirthDate));
            }
            match self.today.years_since(&dob) {
                Some(age) => {
                    if age < self.minimum_age {
                        return Err(
                            AuthError::Validation(
                                ValidationIssue::TooYoung { minimum_age: self.minimum_age },
                            ),
                        );
                    }
                },
                None => {
                    return Err(AuthError::Validation(ValidationIssue::InvalidBirthDate));
                },
            }
        }
        Ok(())
    }
}

/// Verification is refused once the address is verified.
pub struct UserMustNotBeAlreadyVerified {
    pub email_verified_at: Option<i64>,
}

impl BusinessRuleInterface for UserMustNotBeAlreadyVerified {
    open spec fn violation(&self) -> Option<AuthError> {
        if self.email_verified_at is Some {
            Some(AuthError::AlreadyVerified)
        } else {
            None
        }
    }

    fn check_broken(&self) -> (r: AppResult<()>) {
        if self.email_verified_at.is_some() {
            return Err(AuthError::AlreadyVerified);
        }
        Ok(())
    }
}

/// Whether the last resend at `last` lies within the hour before `now`.
pub open spec fn resent_within_hour(last: Option<i64>, now: i64) -> bool {
    match last {
        Some(t) => t > now - RESEND_WINDOW_SECS,
        None => false,
    }
}

/// Within an hour of the last resend, the count of resends must stay under
/// the maximum.
pub struct VerificationResendLimitMustNotBeExceeded {
    pub resend_count: u32,
    pub last_resend_at: Option<i64>,
    pub max_resends_per_hour: u32,
    pub now: i64,
}

impl BusinessRuleInterface for VerificationResendLimitMustNotBeExceeded {
    open spec fn violation(&self) -> Option<AuthError> {
        if resent_within_hour(self.last_resend_at, self.now) && self.resend_count
            >= self.max_resends_per_hour {
            Some(AuthError::RateLimited { max_per_hour: self.max_resends_per_hour })
        } else {
            None
        }
    }

    fn check_broken(&self) -> (r: AppResult<()>) {
        if let Some(last) = self.last_resend_at {
            if last as i128 > self.now as i128 - RESEND_WINDOW_SECS as i128 {
                if self.resend_count >= self.max_resends_per_hour {
                    return Err(AuthError::RateLimited { max_per_hour: self.max_resends_per_hour });
                }
            }
        }
        Ok(())
    }
}

/// The verification token must belong to an account.
pub struct VerificationTokenMustExist {
    pub token_exists: bool,
}

impl BusinessRuleInterface for VerificationTokenMustExist {
    open spec fn violation(&self) -> Option<AuthError> {
        if !self.token_exists {
            Some(AuthError::VerificationTokenUnknown)
        } else {
            None
        }
    }

    fn check_broken(&self) -> (r: AppResult<()>) {
        if !self.token_exists {
            return Err(AuthError::VerificationTokenUnknown);
        }
        Ok(())
    }
}

/// The verification token must carry an expiry that `now` has not passed.
pub struct VerificationTokenMustNotBeExpired {
    pub token_expiry: Option<i64>,
    pub now: i64,
}

impl BusinessRuleInterface for VerificationTokenMustNotBeExpired {
    open spec fn violation(&self) -> Option<AuthError> {
        match self.token_expiry {
            Some(e) => if self.now > e {
                Some(AuthError::VerificationTokenExpired)
            } else {
                None
            },
            None => Some(AuthError::VerificationExpiryMissing),
        }
    }

    fn check_broken(&self) -> (r: AppResult<()>) {
        match self.token_expiry {
            Some(e) => {
                if crate::verification::is_token_expired(&e, self.now) {
                    return Err(AuthError::VerificationTokenExpired);
                }
                Ok(())
            },
            None => Err(AuthError::VerificationExpiryMissing),
        }
    }
}

} // verus!
