use account_core::date::CalendarDate;
use account_core::error::AuthError;
use account_core::login::{LoginAction, LoginEvent, LoginStage};
use account_core::service::AuthConfig;
use account_core::user::ModelEx;

const NOW: i64 = 1_760_000_000;

fn account() -> ModelEx {
    let mut m = ModelEx::create_user_for_registration(
        "user@example.com".to_string(),
        "Valid1Pass!".to_string(),
        "Jane Doe".to_string(),
        None,
        None,
        CalendarDate { year: 2026, month: 10, day: 18 },
        NOW,
    )
    .unwrap();
    m.password = Some("stored-hash".to_string());
    m
}

#[test]
fn unknown_email_is_invalid_credentials() {
    let (stage, action) = LoginStage::LookingUp.step(LoginEvent::Found(None), &AuthConfig::standard(), NOW);
    assert!(matches!(stage, LoginStage::Finished));
    assert!(matches!(action, LoginAction::Fail(AuthError::InvalidCredentials)));
}

#[test]
fn locked_account_never_reaches_password_check() {
    let mut m = account();
    m.account_locked_until = Some(NOW + 600);
    let (stage, action) = LoginStage::LookingUp.step(LoginEvent::Found(Some(m)), &AuthConfig::standard(), NOW);
    assert!(matches!(stage, LoginStage::Finished));
    assert!(matches!(action, LoginAction::Fail(AuthError::AccountLocked { remaining_minutes: 10 })));
}

#[test]
fn password_check_then_save() {
    let config = AuthConfig::standard();
    let (stage, action) = LoginStage::LookingUp.step(LoginEvent::Found(Some(account())), &config, NOW);
    match action {
        LoginAction::VerifyPassword { stored_hash } => assert_eq!(stored_hash.as_deref(), Some("stored-hash")),
        _ => panic!("expected a password check"),
    }
    let (_, action) = stage.step(LoginEvent::PasswordVerified(false), &config, NOW);
    match action {
        LoginAction::SaveAndFail { account, error } => {
            assert_eq!(error, AuthError::InvalidCredentials);
            assert_eq!(account.failed_login_attempts, 1);
            assert_eq!(account.last_failed_login_at, Some(NOW));
        },
        _ => panic!("expected the failure to be saved"),
    }
    let (stage, _) = LoginStage::LookingUp.step(LoginEvent::Found(Some(account())), &config, NOW);
    let (stage, action) = stage.step(LoginEvent::PasswordVerified(true), &config, NOW + 1);
    assert!(matches!(stage, LoginStage::Finished));
    match action {
        LoginAction::SaveAndIssue { account } => {
            assert_eq!(account.failed_login_attempts, 0);
            assert_eq!(account.last_login_at, Some(NOW + 1));
        },
        _ => panic!("expected tokens to be issued"),
    }
}

#[test]
fn out_of_order_event_fails() {
    let (stage, action) = LoginStage::LookingUp.step(LoginEvent::PasswordVerified(true), &AuthConfig::standard(), NOW);
    assert!(matches!(stage, LoginStage::Finished));
    assert!(matches!(action, LoginAction::Fail(AuthError::Internal)));
}
