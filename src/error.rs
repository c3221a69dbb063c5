use vstd::prelude::*;

verus! {

/// Field-level reasons for rejecting the input of an operation.
#[derive(Debug, Clone, Copy, PartialEq, Eq, Structural)]
pub enum ValidationIssue {
    EmailFormat,
    EmailPatternUnusable,
    PasswordTooShort,
    PasswordMissingUppercase,
    PasswordMissingLowercase,
    PasswordMissingDigit,
    PasswordMissingSymbol,
    FullNameRequired,
    FullNameTooLong,
    PhoneFormat,
    PhonePatternUnusable,
    TooYoung { minimum_age: u32 },
    InvalidBirthDate,
    FirstNameRequired,
    LastNameRequired,
    EmailRequired,
    AddressLineRequired,
    CountryRequired,
    CityRequired,
}

/// Which unique field of an account is already taken.
#[derive(Debug, Clone, Copy, PartialEq, Eq, Structural)]
pub enum ConflictField {
    Email,
    Phone,
    Username,
}

/// The failures of the account operations.
#[derive(Debug, Clone, Copy, PartialEq, Eq, Structural)]
pub enum AuthError {
    /// Bad input, with the field-level reason.
    Validation(ValidationIssue),
    /// A unique field is already used by an active account.
    Conflict(ConflictField),
    /// The entity looked up does not exist.
    NotFound,
    /// Wrong email or password; an unknown email reports the same.
    InvalidCredentials,
    /// A valid session is required.
    LoginRequired,
    /// The account has not been activated.
    AccountNotActive,
    /// The account is locked for `remaining_minutes` more minutes.
    AccountLocked { remaining_minutes: i64 },
    /// Too many recent failed logins.
    TooManyFailedAttempts,
    /// No account holds the verification token.
    VerificationTokenUnknown,
    /// The email address is verified already.
    AlreadyVerified,
    /// The verification token has expired.
    VerificationTokenExpired,
    /// The account holds no expiry for its verification token.
    VerificationExpiryMissing,
    /// More verification resends in the last hour than allowed.
    RateLimited { max_per_hour: u32 },
    /// Hashing, signing or storage failed.
    Internal,
}

pub type AppResult<T> = Result<T, AuthError>;

impl AuthError {
    /// The wire-level status class of the failure.
    pub fn status_code(&self) -> (r: u16)
        ensures
            r == spec_status_code(*self),
    {
        match self {
            AuthError::Validation(_) => 400,
            AuthError::Conflict(_) => 409,
            AuthError::NotFound => 404,
            AuthError::InvalidCredentials => 401,
            AuthError::LoginRequired => 401,
            AuthError::AccountNotActive => 401,
            AuthError::AccountLocked { .. } => 423,
            AuthError::TooManyFailedAttempts => 423,
            AuthError::VerificationTokenUnknown => 400,
            AuthError::AlreadyVerified => 400,
            AuthError::VerificationTokenExpired => 400,
            AuthError::VerificationExpiryMissing => 400,
            AuthError::RateLimited { .. } => 429,
            AuthError::Internal => 500,
        }
    }
}

/// The status class of each failure.
pub open spec fn spec_status_code(e: AuthError) -> u16 {
    match e {
        AuthError::Validation(_) => 400,
        AuthError::Conflict(_) => 409,
        AuthError::NotFound => 404,
        AuthError::InvalidCredentials => 401,
        AuthError::LoginRequired => 401,
        AuthError::AccountNotActive => 401,
        AuthError::AccountLocked { .. } => 423,
        AuthError::TooManyFailedAttempts => 423,
        AuthError::VerificationTokenUnknown => 400,
        AuthError::AlreadyVerified => 400,
        AuthError::VerificationTokenExpired => 400,
        AuthError::VerificationExpiryMissing => 400,
        AuthError::RateLimited { .. } => 429,
        AuthError::Internal => 500,
    }
}

} // verus!
