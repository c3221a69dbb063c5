use account_core::date::CalendarDate;
use account_core::error::{AuthError, ValidationIssue};
use account_core::lock_policy::{add_secs, decide_lock, effective_attempts, LockPolicy};
use account_core::user::{ModelEx, Role, Status, UpdateUserRequest};

const NOW: i64 = 1_760_000_000;

fn today() -> CalendarDate {
    CalendarDate { year: 2026, month: 10, day: 18 }
}

fn registered(full_name: &str) -> ModelEx {
    ModelEx::create_user_for_registration(
        "user@example.com".to_string(),
        "Valid1Pass!".to_string(),
        full_name.to_string(),
        None,
        None,
        today(),
        NOW,
    )
    .unwrap()
}

fn pending_with_token(expiry: i64) -> ModelEx {
    let mut m = registered("Jane Doe");
    m.verification_token = Some("token".to_string());
    m.verification_token_expiry = Some(expiry);
    m
}

#[test]
fn registration_builds_pending_customer() {
    let m = registered("  Jane   van  Doe ");
    assert_eq!(m.first_name, "Jane");
    assert_eq!(m.last_name, "van Doe");
    assert_eq!(m.username, "user");
    assert_eq!(m.email, "user@example.com");
    assert_eq!(m.status, Status::PENDING);
    assert_eq!(m.role, Role::CUSTOMER);
    assert_eq!(m.failed_login_attempts, 0);
    assert_eq!(m.created_at, Some(NOW));
    assert!(m.email_verified_at.is_none());
}

#[test]
fn registration_single_word_name_has_empty_last_name() {
    let m = registered("Cher");
    assert_eq!(m.first_name, "Cher");
    assert_eq!(m.last_name, "");
}

#[test]
fn registration_reports_first_broken_rule() {
    let reg = |email: &str, pw: &str, name: &str, phone: Option<&str>, dob: Option<CalendarDate>| {
        ModelEx::create_user_for_registration(
            email.to_string(),
            pw.to_string(),
            name.to_string(),
            phone.map(|p| p.to_string()),
            dob,
            today(),
            NOW,
        )
        .err()
    };
    assert_eq!(reg("bad", "abc", "", None, None), Some(AuthError::Validation(ValidationIssue::EmailFormat)));
    assert_eq!(
        reg("a@b.io", "abc", "", None, None),
        Some(AuthError::Validation(ValidationIssue::PasswordTooShort))
    );
    assert_eq!(
        reg("a@b.io", "Valid1Pass!", " ", None, None),
        Some(AuthError::Validation(ValidationIssue::FullNameRequired))
    );
    assert_eq!(
        reg("a@b.io", "Valid1Pass!", "Jo", Some("0000"), None),
        Some(AuthError::Validation(ValidationIssue::PhoneFormat))
    );
    assert_eq!(
        reg("a@b.io", "Valid1Pass!", "Jo", Some("+4915112345678"), Some(CalendarDate { year: 2020, month: 1, day: 1 })),
        Some(AuthError::Validation(ValidationIssue::TooYoung { minimum_age: 13 }))
    );
    assert_eq!(reg("a@b.io", "Valid1Pass!", "Jo", Some("+4915112345678"), None), None);
}

#[test]
fn verify_email_activates_once() {
    let m = pending_with_token(NOW + 10);
    let verified = m.verify_email(NOW).unwrap();
    assert_eq!(verified.status, Status::ACTIVE);
    assert_eq!(verified.email_verified_at, Some(NOW));
    assert!(verified.verification_token.is_none());
    assert!(verified.verification_token_expiry.is_none());
    assert_eq!(verified.verify_email(NOW + 1).err(), Some(AuthError::AlreadyVerified));
}

#[test]
fn verify_email_refuses_expired_token() {
    let m = pending_with_token(NOW - 1);
    assert_eq!(m.verify_email(NOW).err(), Some(AuthError::VerificationTokenExpired));
    let mut no_expiry = registered("Jane Doe");
    no_expiry.verification_token = Some("t".to_string());
    assert_eq!(no_expiry.verify_email(NOW).err(), Some(AuthError::VerificationExpiryMissing));
}

#[test]
fn fourth_resend_in_an_hour_is_rate_limited() {
    let mut m = pending_with_token(NOW + 100);
    for i in 0..3i64 {
        m = m
            .prepare_resend_verification(format!("t{i}"), NOW + 86_400, NOW + i * 600, 3)
            .unwrap();
        assert_eq!(m.verification_resend_count, (i + 1) as u32);
    }
    assert_eq!(m.verification_token.as_deref(), Some("t2"));
    let fourth = m.prepare_resend_verification("t3".to_string(), NOW + 86_400, NOW + 1_800, 3);
    assert_eq!(fourth.err(), Some(AuthError::RateLimited { max_per_hour: 3 }));
}

#[test]
fn resend_after_an_hour_restarts_count() {
    let mut m = pending_with_token(NOW + 100);
    for i in 0..3i64 {
        m = m.prepare_resend_verification(format!("t{i}"), NOW, NOW + i, 3).unwrap();
    }
    let later = NOW + 2 + 3_601;
    let m = m.prepare_resend_verification("fresh".to_string(), later + 86_400, later, 3).unwrap();
    assert_eq!(m.verification_resend_count, 1);
    assert_eq!(m.last_verification_resend_at, Some(later));
    assert_eq!(m.verification_token_expiry, Some(later + 86_400));
}

#[test]
fn resend_refused_once_verified() {
    let m = pending_with_token(NOW + 10).verify_email(NOW).unwrap();
    let r = m.prepare_resend_verification("x".to_string(), NOW, NOW, 3);
    assert_eq!(r.err(), Some(AuthError::AlreadyVerified));
}

#[test]
fn max_failures_lock_the_account() {
    let policy = LockPolicy::standard();
    let mut m = registered("Jane Doe");
    for i in 0..4i64 {
        m = m.handle_failed_login(&policy, NOW + i * 60);
        assert_eq!(m.account_locked_until, None);
        assert_eq!(m.failed_login_attempts, (i + 1) as u32);
    }
    let fifth = NOW + 240;
    m = m.handle_failed_login(&policy, fifth);
    assert_eq!(m.failed_login_attempts, 5);
    assert_eq!(m.account_locked_until, Some(fifth + 30 * 60));
    // The right password does not help while locked: the lock check comes first.
    assert_eq!(
        m.validate_login_attempt(fifth + 60),
        Err(AuthError::AccountLocked { remaining_minutes: 29 })
    );
    assert_eq!(m.validate_login_attempt(fifth + 30 * 60), Ok(()));
}

#[test]
fn success_clears_counter_and_lock() {
    let policy = LockPolicy::standard();
    let mut m = registered("Jane Doe");
    for i in 0..3i64 {
        m = m.handle_failed_login(&policy, NOW + i);
    }
    m.account_locked_until = Some(NOW - 5);
    let m = m.handle_successful_login(NOW + 10);
    assert_eq!(m.failed_login_attempts, 0);
    assert_eq!(m.account_locked_until, None);
    assert_eq!(m.last_login_at, Some(NOW + 10));
}

#[test]
fn stale_failures_do_not_count() {
    let policy = LockPolicy::standard();
    let mut m = registered("Jane Doe");
    for i in 0..4i64 {
        m = m.handle_failed_login(&policy, NOW + i);
    }
    let late = NOW + 3 + 15 * 60 + 1;
    let m = m.handle_failed_login(&policy, late);
    assert_eq!(m.failed_login_attempts, 1);
    assert_eq!(m.account_locked_until, None);
    assert_eq!(effective_attempts(4, Some(NOW), NOW + 900, 900), 0);
    assert_eq!(effective_attempts(4, Some(NOW), NOW + 899, 900), 4);
}

#[test]
fn lock_decision_and_saturation() {
    let policy = LockPolicy::standard();
    assert_eq!(decide_lock(&policy, 4, NOW), None);
    assert_eq!(decide_lock(&policy, 5, NOW), Some(NOW + 1800));
    assert_eq!(add_secs(i64::MAX - 5, 10), i64::MAX);
    assert_eq!(add_secs(10, 5), 15);
}

#[test]
fn update_applies_given_fields() {
    let m = registered("Jane Doe");
    let req = UpdateUserRequest {
        avatar: Some("a.png".to_string()),
        first_name: Some("Janet".to_string()),
        last_name: None,
        email: None,
        birth_of_date: None,
        phone_number: None,
        status: Some(Status::INACTIVE),
    };
    let m = m.update_from(&req).unwrap();
    assert_eq!(m.first_name, "Janet");
    assert_eq!(m.last_name, "Doe");
    assert_eq!(m.avatar.as_deref(), Some("a.png"));
    assert_eq!(m.status, Status::INACTIVE);
    let bad = UpdateUserRequest {
        avatar: None,
        first_name: None,
        last_name: None,
        email: Some("no-at-sign".to_string()),
        birth_of_date: None,
        phone_number: None,
        status: None,
    };
    assert_eq!(m.update_from(&bad).err(), Some(AuthError::Validation(ValidationIssue::EmailFormat)));
}
