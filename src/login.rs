use vstd::prelude::*;
use crate::error::AuthError;
use crate::service::{begin_login, conclude_password_check, AuthConfig};
use crate::text::clone_opt;
use crate::user::{spec_failed_login, spec_login_attempt, spec_successful_login, ModelEx};

verus! {

/// Where a login attempt stands.
pub enum LoginStage {
    /// The account has not been looked up yet.
    LookingUp,
    /// The lock check passed; the password is being verified.
    CheckingPassword { account: ModelEx },
    /// The attempt is decided.
    Finished,
}

/// What the caller reports back to a login attempt.
pub enum LoginEvent {
    /// The account looked up by email, if any.
    Found(Option<ModelEx>),
    /// Whether the password matched the stored hash.
    PasswordVerified(bool),
}

/// What the caller does next.
pub enum LoginAction {
    /// Verify the password against this stored hash, off the request thread.
    VerifyPassword { stored_hash: Option<String> },
    /// Store the account, then report the error: the failed attempt is kept.
    SaveAndFail { account: ModelEx, error: AuthError },
    /// Store the account, then open a session and issue the tokens.
    SaveAndIssue { account: ModelEx },
    /// Report the error; nothing is stored.
    Fail(AuthError),
}

impl LoginStage {
    /// Advances a login attempt by one event at `now`.
    pub fn step(self, event: LoginEvent, config: &AuthConfig, now: i64) -> (r: (LoginStage, LoginAction))
        requires
            config.wf(),
        ensures
            match (self, event) {
                (LoginStage::LookingUp, LoginEvent::Found(None)) => r.0 is Finished && r.1
                    == LoginAction::Fail(AuthError::InvalidCredentials),
                (LoginStage::LookingUp, LoginEvent::Found(Some(m))) => match spec_login_attempt(
                    m,
                    now,
                ) {
                    Err(e) => r.0 is Finished && r.1 == LoginAction::Fail(e),
                    Ok(_) => r.0 == (LoginStage::CheckingPassword { account: m })
                        && r.1 == (LoginAction::VerifyPassword { stored_hash: m.password }),
                },
                (LoginStage::CheckingPassword { account }, LoginEvent::PasswordVerified(ok)) => {
                    &&& r.0 is Finished
                    &&& ok ==> r.1 == (LoginAction::SaveAndIssue {
                        account: spec_successful_login(account, now),
                    })
                    &&& !ok ==> r.1 == (LoginAction::SaveAndFail {
                        account: spec_failed_login(account, config.lock, now),
                        error: AuthError::InvalidCredentials,
                    })
                },
                _ => r.0 is Finished && r.1 == LoginAction::Fail(AuthError::Internal),
            },
    {
        match (self, event) {
            (LoginStage::LookingUp, LoginEvent::Found(found)) => {
                match begin_login(found, now) {
                    Err(e) => (LoginStage::Finished, LoginAction::Fail(e)),
                    Ok(account) => {
                        let stored_hash = clone_opt(&account.password);
                        (
                            LoginStage::CheckingPassword { account },
                            LoginAction::VerifyPassword { stored_hash },
                        )
                    },
                }
            },
            (LoginStage::CheckingPassword { account }, LoginEvent::PasswordVerified(ok)) => {
                let (account, outcome) = conclude_password_check(account, ok, config, now);
                match outcome {
                    Ok(()) => (LoginStage::Finished, LoginAction::SaveAndIssue { account }),
                    Err(error) => (LoginStage::Finished, LoginAction::SaveAndFail { account, error }),
                }
            },
            _ => (LoginStage::Finished, LoginAction::Fail(AuthError::Internal)),
        }
    }
}

} // verus!
