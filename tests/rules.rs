use account_core::date::CalendarDate;
use account_core::error::{AuthError, ConflictField, ValidationIssue};
use account_core::rules::{
    AccountMustBeActive, AccountMustNotBeLocked, BusinessRuleInterface, EmailMustBeUnique,
    EmailMustBeValid, FailedLoginLimitMustNotBeExceeded, FullNameMustBeValid,
    PasswordMustMeetRequirements, PhoneMustBeUnique, PhoneMustBeValid, UserMustBeAtLeastAge,
    UserMustNotBeAlreadyVerified, VerificationResendLimitMustNotBeExceeded,
    VerificationTokenMustExist, VerificationTokenMustNotBeExpired,
};
use account_core::user::Status;

fn password(p: &str) -> Result<(), AuthError> {
    PasswordMustMeetRequirements { password: p.to_string() }.check_broken()
}

fn date(year: i32, month: u32, day: u32) -> CalendarDate {
    CalendarDate { year, month, day }
}

#[test]
fn password_policy_rejects_weak_passwords() {
    assert_eq!(password("abc"), Err(AuthError::Validation(ValidationIssue::PasswordTooShort)));
    assert_eq!(
        password("alllowercase1!"),
        Err(AuthError::Validation(ValidationIssue::PasswordMissingUppercase))
    );
    assert_eq!(
        password("ALLUPPERCASE1!"),
        Err(AuthError::Validation(ValidationIssue::PasswordMissingLowercase))
    );
    assert_eq!(
        password("NoDigitsHere!"),
        Err(AuthError::Validation(ValidationIssue::PasswordMissingDigit))
    );
    assert_eq!(
        password("NoSymbolsHere1"),
        Err(AuthError::Validation(ValidationIssue::PasswordMissingSymbol))
    );
}

#[test]
fn password_policy_accepts_strong_password() {
    assert_eq!(password("Valid1Pass!"), Ok(()));
}

#[test]
fn password_length_counts_bytes() {
    // Seven chars, nine bytes: long enough.
    assert_eq!(password("Ab1!éé√"), Ok(()));
    assert_eq!(password("Ab1!xyz"), Err(AuthError::Validation(ValidationIssue::PasswordTooShort)));
}

#[test]
fn email_shape_is_checked() {
    let ok = EmailMustBeValid { email: "user@example.com".to_string() };
    assert_eq!(ok.check_broken(), Ok(()));
    for bad in ["user@example", "userexample.com", "@example.com", "user@example.c", "a b@example.com"] {
        let rule = EmailMustBeValid { email: bad.to_string() };
        assert_eq!(rule.check_broken(), Err(AuthError::Validation(ValidationIssue::EmailFormat)), "{bad}");
    }
}

#[test]
fn phone_shape_is_checked() {
    for good in ["+14155552671", "4155552671", "12"] {
        let rule = PhoneMustBeValid { phone: good.to_string() };
        assert_eq!(rule.check_broken(), Ok(()), "{good}");
    }
    for bad in ["0123456", "+", "1", "1234567890123456", "12-34"] {
        let rule = PhoneMustBeValid { phone: bad.to_string() };
        assert_eq!(rule.check_broken(), Err(AuthError::Validation(ValidationIssue::PhoneFormat)), "{bad}");
    }
}

#[test]
fn full_name_must_be_present_and_short() {
    let rule = |s: &str| FullNameMustBeValid { full_name: s.to_string() }.check_broken();
    assert_eq!(rule("   \t"), Err(AuthError::Validation(ValidationIssue::FullNameRequired)));
    assert_eq!(rule(""), Err(AuthError::Validation(ValidationIssue::FullNameRequired)));
    assert_eq!(rule(&"a".repeat(100)), Ok(()));
    assert_eq!(rule(&"a".repeat(101)), Err(AuthError::Validation(ValidationIssue::FullNameTooLong)));
    assert_eq!(rule(&"é".repeat(100)), Ok(()));
    assert_eq!(rule("Jane Doe"), Ok(()));
}

#[test]
fn age_rule_counts_birthdays() {
    let today = date(2026, 10, 18);
    let rule = |dob: Option<CalendarDate>| {
        UserMustBeAtLeastAge { date_of_birth: dob, minimum_age: 13, today }.check_broken()
    };
    assert_eq!(rule(None), Ok(()));
    assert_eq!(rule(Some(date(2013, 10, 18))), Ok(()));
    assert_eq!(
        rule(Some(date(2013, 10, 19))),
        Err(AuthError::Validation(ValidationIssue::TooYoung { minimum_age: 13 }))
    );
    assert_eq!(
        rule(Some(date(2027, 1, 1))),
        Err(AuthError::Validation(ValidationIssue::InvalidBirthDate))
    );
    assert_eq!(today.years_since(&date(2000, 10, 19)), Some(25));
    assert_eq!(today.years_since(&date(2000, 10, 18)), Some(26));
}

#[test]
fn lock_rule_reports_remaining_minutes() {
    let now = 1_000_000;
    let rule = |until: Option<i64>| AccountMustNotBeLocked { account_locked_until: until, now }.check_broken();
    assert_eq!(rule(None), Ok(()));
    assert_eq!(rule(Some(now)), Ok(()));
    assert_eq!(rule(Some(now - 1)), Ok(()));
    assert_eq!(rule(Some(now + 30 * 60)), Err(AuthError::AccountLocked { remaining_minutes: 30 }));
    assert_eq!(rule(Some(now + 119)), Err(AuthError::AccountLocked { remaining_minutes: 1 }));
    assert_eq!(rule(Some(now + 59)), Err(AuthError::AccountLocked { remaining_minutes: 0 }));
}

#[test]
fn failed_login_limit_resets_after_window() {
    let now = 10_000;
    let rule = |count: u32, last: Option<i64>| FailedLoginLimitMustNotBeExceeded {
        failed_attempts: count,
        last_failed_login_at: last,
        max_attempts: 5,
        lockout_window_minutes: 15,
        now,
    }
    .check_broken();
    assert_eq!(rule(4, Some(now - 60)), Ok(()));
    assert_eq!(rule(5, Some(now - 60)), Err(AuthError::TooManyFailedAttempts));
    assert_eq!(rule(5, Some(now - 15 * 60)), Ok(()));
    assert_eq!(rule(5, None), Err(AuthError::TooManyFailedAttempts));
}

#[test]
fn resend_limit_applies_within_the_hour() {
    let now = 100_000;
    let rule = |count: u32, last: Option<i64>| VerificationResendLimitMustNotBeExceeded {
        resend_count: count,
        last_resend_at: last,
        max_resends_per_hour: 3,
        now,
    }
    .check_broken();
    assert_eq!(rule(3, Some(now - 10)), Err(AuthError::RateLimited { max_per_hour: 3 }));
    assert_eq!(rule(2, Some(now - 10)), Ok(()));
    assert_eq!(rule(3, Some(now - 3600)), Ok(()));
    assert_eq!(rule(9, None), Ok(()));
}

#[test]
fn simple_rules_report_their_errors() {
    assert_eq!(AccountMustBeActive { status: Status::ACTIVE }.check_broken(), Ok(()));
    assert_eq!(AccountMustBeActive { status: Status::PENDING }.check_broken(), Err(AuthError::AccountNotActive));
    assert_eq!(EmailMustBeUnique { is_unique: false }.check_broken(), Err(AuthError::Conflict(ConflictField::Email)));
    assert_eq!(EmailMustBeUnique { is_unique: true }.check_broken(), Ok(()));
    assert_eq!(PhoneMustBeUnique { is_unique: false }.check_broken(), Err(AuthError::Conflict(ConflictField::Phone)));
    assert_eq!(PhoneMustBeUnique { is_unique: true }.check_broken(), Ok(()));
    assert_eq!(UserMustNotBeAlreadyVerified { email_verified_at: Some(1) }.check_broken(), Err(AuthError::AlreadyVerified));
    assert_eq!(UserMustNotBeAlreadyVerified { email_verified_at: None }.check_broken(), Ok(()));
    assert_eq!(VerificationTokenMustExist { token_exists: false }.check_broken(), Err(AuthError::VerificationTokenUnknown));
    assert_eq!(VerificationTokenMustExist { token_exists: true }.check_broken(), Ok(()));
    assert_eq!(
        VerificationTokenMustNotBeExpired { token_expiry: None, now: 5 }.check_broken(),
        Err(AuthError::VerificationExpiryMissing)
    );
    assert_eq!(
        VerificationTokenMustNotBeExpired { token_expiry: Some(4), now: 5 }.check_broken(),
        Err(AuthError::VerificationTokenExpired)
    );
    assert_eq!(VerificationTokenMustNotBeExpired { token_expiry: Some(5), now: 5 }.check_broken(), Ok(()));
}

#[test]
fn errors_map_to_status_codes() {
    assert_eq!(AuthError::InvalidCredentials.status_code(), 401);
    assert_eq!(AuthError::AccountLocked { remaining_minutes: 3 }.status_code(), 423);
    assert_eq!(AuthError::RateLimited { max_per_hour: 3 }.status_code(), 429);
    assert_eq!(AuthError::Conflict(ConflictField::Email).status_code(), 409);
    assert_eq!(AuthError::NotFound.status_code(), 404);
    assert_eq!(AuthError::Validation(ValidationIssue::EmailFormat).status_code(), 400);
    assert_eq!(AuthError::Internal.status_code(), 500);
}

#[test]
fn whitespace_matches_std_for_every_char() {
    for code in 0..=0x10FFFFu32 {
        if let Some(c) = char::from_u32(code) {
            assert_eq!(account_core::text::is_whitespace(c), c.is_whitespace(), "U+{code:04X}");
        }
    }
}
