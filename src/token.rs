use vstd::prelude::*;
use crate::error::{AppResult, AuthError};
use crate::lock_policy::{add_secs, spec_add_secs};
use crate::text::{decimal, decimal_string};
use crate::user::{ModelEx, Role};

verus! {

/// What an access or refresh token asserts: who, in which session, and when
/// it was issued and expires (seconds since the Unix epoch).
pub struct UserClaims {
    pub iat: i64,
    pub exp: i64,
    pub user_id: i64,
    pub sid: String,
}

impl UserClaims {
    /// Claims issued at `now` that expire `ttl_secs` later.
    pub fn new(ttl_secs: i64, user_id: &i64, session_id: &str, now: i64) -> (r: UserClaims)
        requires
            ttl_secs >= 0,
        ensures
            r.iat == now,
            r.exp == spec_add_secs(now, ttl_secs),
            r.user_id == *user_id,
            r.sid@ == session_id@,
    {
        UserClaims {
            iat: now,
            exp: add_secs(now, ttl_secs),
            user_id: *user_id,
            sid: String::from_str(session_id),
        }
    }

    /// Whether the claims are still valid at `now`: expired claims are
    /// refused even where the token is well formed.
    pub fn check_fresh(&self, now: i64) -> (r: AppResult<()>)
        ensures
            r is Ok <==> now < self.exp,
            r is Err ==> r == Err::<(), AuthError>(AuthError::LoginRequired),
    {
        if now < self.exp {
            Ok(())
        } else {
            Err(AuthError::LoginRequired)
        }
    }
}

/// The account shown next to the tokens of a login.
pub struct UserInfo {
    pub id: String,
    pub email: String,
    pub full_name: String,
    pub role: String,
}

/// The display name: first and last name with a space between.
pub open spec fn display_name(m: ModelEx) -> Seq<char> {
    m.first_name@ + seq![' '] + m.last_name@
}

/// The name of a role on the wire.
pub open spec fn role_name(r: Role) -> Seq<char> {
    match r {
        Role::CUSTOMER => "customer"@,
        Role::ADMIN => "admin"@,
    }
}

/// Joins the first and last name of an account with a space.
pub fn full_name_of(m: &ModelEx) -> (r: String)
    ensures
        r@ == display_name(*m),
{
    let mut r = m.first_name.clone();
    r.append(" ");
    r.append(m.last_name.as_str());
    proof {
        reveal_strlit(" ");
        assert(r@ =~= display_name(*m));
    }
    r
}

impl UserInfo {
    /// The projection of an account that a login returns.
    pub fn from_account(m: &ModelEx) -> (r: UserInfo)
        ensures
            r.id@ == decimal(m.id as int),
            r.email@ == m.email@,
            r.full_name@ == display_name(*m),
            r.role@ == role_name(m.role),
    {
        let role = match m.role {
            Role::CUSTOMER => String::from_str("customer"),
            Role::ADMIN => String::from_str("admin"),
        };
        UserInfo {
            id: decimal_string(m.id),
            email: m.email.clone(),
            full_name: full_name_of(m),
            role,
        }
    }
}

/// The tokens of a login, the access token's lifetime in seconds, and the
/// account.
pub struct TokenResponse {
    pub access_token: String,
    pub refresh_token: String,
    pub expires_in: u64,
    pub user: UserInfo,
}

impl TokenResponse {
    /// Gathers the parts of a login answer.
    pub fn new(access_token: String, refresh_token: String, expires_in: u64, user: UserInfo) -> (r:
        TokenResponse)
        ensures
            r.access_token == access_token,
            r.refresh_token == refresh_token,
            r.expires_in == expires_in,
            r.user == user,
    {
        TokenResponse { access_token, refresh_token, expires_in, user }
    }
}

/// What a login answers: tokens, or a code to confirm first.
pub enum LoginResponse {
    Token(TokenResponse),
    Code { message: String, expire_in: u64 },
}

impl From<TokenResponse> for LoginResponse {
    fn from(value: TokenResponse) -> (r: LoginResponse) {
        LoginResponse::Token(value)
    }
}

impl vstd::std_specs::convert::FromSpecImpl<TokenResponse> for LoginResponse {
    open spec fn obeys_from_spec() -> bool {
        true
    }

    open spec fn from_spec(v: TokenResponse) -> LoginResponse {
        LoginResponse::Token(v)
    }
}

} // verus!
