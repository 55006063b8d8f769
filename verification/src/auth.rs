//! Who a caller is and what a token says: roles, claims, and the
//! decisions that the authentication of a request rests on.

use crate::error::APIError;
use crate::error::ApiFailure;
use crate::text::strip_prefix;
use crate::text::text_eq;
use vstd::prelude::*;

verus! {

/// What a caller may do.
#[derive(Clone, Copy, Debug, PartialEq, Eq, Structural)]
pub enum UserRole {
    Admin,
    User,
    ReadOnly,
}

/// What a token says of its bearer.
#[derive(Clone, Debug)]
pub struct Claims {
    pub user_id: String,
    pub role: UserRole,
    /// When the token expires, in seconds since the epoch.
    pub exp: usize,
}

/// How tokens are made.
#[derive(Clone, Debug)]
pub struct AuthConfig {
    pub jwt_secret: String,
    pub token_expiry_hours: u64,
}

/// The hours that a token lives where nothing else is configured.
pub const DEFAULT_TOKEN_EXPIRY_HOURS: u64 = 24;

impl AuthConfig {
    /// The configuration for the secret that the environment gives, or
    /// for `default_secret` where it gives none. Tokens live 24 hours.
    pub fn with_secret(jwt_secret: Option<String>) -> (res: AuthConfig)
        ensures
            res.jwt_secret@ == match jwt_secret {
                Some(secret) => secret@,
                None => "default_secret"@,
            },
            res.token_expiry_hours == 24,
    {
        let jwt_secret = match jwt_secret {
            Some(secret) => secret,
            None => String::from_str("default_secret"),
        };
        AuthConfig { jwt_secret, token_expiry_hours: DEFAULT_TOKEN_EXPIRY_HOURS }
    }
}

/// A request to log in.
#[derive(Clone, Debug)]
pub struct LoginRequest {
    pub username: String,
    pub password: String,
}

/// The answer to a successful login.
#[derive(Clone, Debug)]
pub struct LoginResponse {
    pub token: String,
    pub user_id: String,
    pub role: UserRole,
}

/// When a token made at `now` expires, where that moment can be
/// written down.
pub open spec fn expiry_of(now: i64, hours: u64) -> Option<usize> {
    let at = now + hours * 3600;
    if 0 <= at <= i64::MAX && at <= usize::MAX {
        Some(at as usize)
    } else {
        None
    }
}

/// The service that makes the claims of tokens.
pub struct AuthService {
    config: AuthConfig,
}

impl AuthService {
    /// The hours that a token lives.
    pub closed spec fn expiry_hours(&self) -> u64 {
        self.config.token_expiry_hours
    }

    /// The secret that tokens are signed with.
    pub closed spec fn secret(&self) -> Seq<char> {
        self.config.jwt_secret@
    }

    /// A service with the given configuration.
    pub fn new(config: AuthConfig) -> (res: AuthService)
        ensures
            res.expiry_hours() == config.token_expiry_hours,
            res.secret() == config.jwt_secret@,
    {
        AuthService { config }
    }

    /// The secret that tokens are signed with.
    pub fn jwt_secret(&self) -> (res: &str)
        ensures
            res@ == self.secret(),
    {
        self.config.jwt_secret.as_str()
    }

    /// When a token made at `now` expires.
    pub fn token_expiry(&self, now: i64) -> (res: Option<usize>)
        ensures
            res == expiry_of(now, self.expiry_hours()),
    {
        let at: i128 = now as i128 + (self.config.token_expiry_hours as i128) * 3600;
        if 0 <= at && at <= 0x7fff_ffff_ffff_ffff && at <= usize::MAX as i128 {
            Some(at as usize)
        } else {
            None
        }
    }

    /// The claims of a token made at `now` for `user_id` in `role`.
    /// Fails with `Unexpected` where the expiry cannot be written down.
    pub fn token_claims(&self, user_id: String, role: UserRole, now: i64) -> (res: Result<
        Claims,
        APIError,
    >)
        ensures
            match expiry_of(now, self.expiry_hours()) {
                Some(exp) => res matches Ok(claims) && claims.user_id@ == user_id@ && claims.role
                    == role && claims.exp == exp,
                None => res matches Err(e) && e@ == ApiFailure::Unexpected(
                    "Token generation failed: expiry out of range"@,
                ),
            },
    {
        match self.token_expiry(now) {
            Some(exp) => Ok(Claims { user_id, role, exp }),
            None => Err(
                APIError::Unexpected(
                    String::from_str("Token generation failed: expiry out of range"),
                ),
            ),
        }
    }
}

/// Whether `path` is served without authentication.
pub open spec fn public_path(path: Seq<char>) -> bool {
    path == "/init"@ || path == "/unlock"@ || path == "/networkinfo"@
}

/// Whether `path` is served without authentication: the node's
/// initialisation, its unlocking and its network information are.
pub fn is_public_path(path: &str) -> (res: bool)
    ensures
        res == public_path(path@),
{
    text_eq(path, "/init") || text_eq(path, "/unlock") || text_eq(path, "/networkinfo")
}

/// The token of an `Authorization` header: what follows `Bearer `.
pub fn bearer_token<'a>(header: &'a str) -> (res: Option<&'a str>)
    ensures
        res is Some <==> "Bearer "@.is_prefix_of(header@),
        res matches Some(token) ==> header@ == "Bearer "@ + token@,
{
    strip_prefix(header, "Bearer ")
}

} // verus!
