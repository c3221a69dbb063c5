use vstd::prelude::*;
use crate::date::CalendarDate;

verus! {

/// The client a login comes from, as far as it tells.
#[derive(Debug, Clone)]
pub struct DeviceInfo {
    pub user_agent: Option<String>,
    pub ip_address: Option<String>,
}

/// A login with email and password.
pub struct LoginByEmailCommand {
    pub email: String,
    pub password: String,
    pub device_info: Option<DeviceInfo>,
}

impl LoginByEmailCommand {
    pub fn get_email(&self) -> (r: &str)
        ensures
            r@ == self.email@,
    {
        self.email.as_str()
    }

    pub fn get_password(&self) -> (r: &str)
        ensures
            r@ == self.password@,
    {
        self.password.as_str()
    }
}

/// A request for new tokens against a refresh token.
pub struct RefreshTokenCommand {
    pub token: String,
}

impl RefreshTokenCommand {
    pub fn get_token(&self) -> (r: &str)
        ensures
            r@ == self.token@,
    {
        self.token.as_str()
    }
}

/// A request to reset a forgotten password.
pub struct ForgetPasswordCommand {
    pub email: String,
}

impl ForgetPasswordCommand {
    pub fn get_email(&self) -> (r: &str)
        ensures
            r@ == self.email@,
    {
        self.email.as_str()
    }
}

/// A self-service registration.
pub struct RegisterUserCommand {
    pub email: String,
    pub password: String,
    pub full_name: String,
    pub phone_number: Option<String>,
    pub date_of_birth: Option<CalendarDate>,
}

/// A verification of an email address by its token.
pub struct VerifyEmailCommand {
    pub verification_token: String,
}

/// A request for a new verification email.
pub struct ResendVerificationEmailCommand {
    pub email: String,
}

/// A page of a listing.
pub struct PaginationQuery {
    pub page: u64,
    pub page_size: u64,
}

/// The first page.
pub fn default_page() -> (r: u64)
    ensures
        r == 0,
{
    0
}

/// Ten entries a page.
pub fn default_page_size() -> (r: u64)
    ensures
        r == 10,
{
    10
}

/// Selects the addresses of one user.
pub struct UserIdQuery {
    pub user_id: i64,
}

} // verus!
