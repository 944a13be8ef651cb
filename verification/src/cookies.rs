//! The cookies the service sets and clears, and what it reads from the
//! cookies a request brings.

use vstd::prelude::*;

use crate::config::Config;
use crate::errors::AppError;
use crate::text::{decimal_i64, parse_i64};

verus! {

/// The cookie that keeps the PKCE verifier between the start of an OAuth
/// flow and its callback.
pub const PKCE_VERIFIER_COOKIE: &'static str = "pkce_verifier";
/// The cookie that names a pending Google sign-in.
pub const GOOGLE_OAUTH_USER_SUB_COOKIE: &'static str = "google_oauth_user_sub";
/// The cookie that names a pending GitHub sign-in.
pub const GITHUB_OAUTH_USER_ID_COOKIE: &'static str = "github_oauth_user_id";
/// The cookie that names a pending e-mail sign-up.
pub const EMAIL_OAUTH_USER_ID_COOKIE: &'static str = "email_oauth_user_id";
/// The cookie that holds the refresh token of a browser session.
pub const REFRESH_TOKEN_COOKIE: &'static str = "refresh_token";

/// Seconds in a day.
pub const SECONDS_PER_DAY: i64 = 86400;
/// How long the sign-in cookies live: a year, in seconds.
pub const SIGN_IN_COOKIE_MAX_AGE: i64 = 31_536_000;

/// The `SameSite` attribute of a cookie.
#[derive(Clone, Copy, Debug, PartialEq, Eq, Structural)]
pub enum SameSite {
    Strict,
    Lax,
    NoRestriction,
}

/// A cookie to set on the response: its name, value and attributes.
pub struct CookieSpec {
    pub name: String,
    pub value: String,
    pub http_only: bool,
    pub same_site: SameSite,
    /// How long the cookie lives, in seconds; zero clears it.
    pub max_age_seconds: i64,
    pub secure: bool,
}

/// Whether cookies are marked `Secure`: as configured, and yes when unset.
pub open spec fn secure_cookies(config: Config) -> bool {
    match config.cookie_secure {
        Some(b) => b,
        None => true,
    }
}

/// The days a refresh-token cookie lives: as configured, thirty when unset.
pub open spec fn refresh_cookie_days(config: Config) -> int {
    match config.refresh_token_expire_in_days {
        Some(d) => d as int,
        None => 30,
    }
}

/// The refresh-token cookie's lifetime is a span that a duration can hold.
pub open spec fn refresh_cookie_age_fits(config: Config) -> bool {
    i64::MIN <= refresh_cookie_days(config) * 86400 <= i64::MAX
}

/// The cookie is HTTP-only and `SameSite=Lax`, with the given name, value,
/// age and `Secure` flag.
pub open spec fn lax_cookie(c: CookieSpec, name: Seq<char>, value: Seq<char>, max_age: int, secure: bool) -> bool {
    &&& c.name@ == name
    &&& c.value@ == value
    &&& c.http_only
    &&& c.same_site == SameSite::Lax
    &&& c.max_age_seconds == max_age
    &&& c.secure == secure
}

fn secure_flag(config: &Config) -> (res: bool)
    ensures
        res == secure_cookies(*config),
{
    match config.cookie_secure {
        Some(b) => b,
        None => true,
    }
}

/// A cookie of the sign-in flow: HTTP-only, `SameSite=Lax`, kept for a year,
/// `Secure` as configured.
pub fn sign_in_cookie(name: &str, value: &str, config: &Config) -> (res: CookieSpec)
    ensures
        lax_cookie(res, name@, value@, SIGN_IN_COOKIE_MAX_AGE as int, secure_cookies(*config)),
{
    CookieSpec {
        name: String::from_str(name),
        value: String::from_str(value),
        http_only: true,
        same_site: SameSite::Lax,
        max_age_seconds: SIGN_IN_COOKIE_MAX_AGE,
        secure: secure_flag(config),
    }
}

/// The cookie that carries a refresh token: HTTP-only, `SameSite=Lax`, kept
/// for the configured refresh lifetime (thirty days when unset), `Secure` as
/// configured.
pub fn refresh_token_cookie(token: &str, config: &Config) -> (res: CookieSpec)
    requires
        refresh_cookie_age_fits(*config),
    ensures
        lax_cookie(
            res,
            "refresh_token"@,
            token@,
            refresh_cookie_days(*config) * 86400,
            secure_cookies(*config),
        ),
{
    let days: i64 = match config.refresh_token_expire_in_days {
        Some(d) => d,
        None => 30,
    };
    CookieSpec {
        name: String::from_str(REFRESH_TOKEN_COOKIE),
        value: String::from_str(token),
        http_only: true,
        same_site: SameSite::Lax,
        max_age_seconds: days * SECONDS_PER_DAY,
        secure: secure_flag(config),
    }
}

/// A cookie that clears the named one: empty, HTTP-only, `SameSite=Lax`,
/// `Secure`, and already expired.
pub fn expired_cookie(name: &str) -> (res: CookieSpec)
    ensures
        res.name@ == name@,
        res.value@.len() == 0,
        res.http_only,
        res.same_site == SameSite::Lax,
        res.secure,
        res.max_age_seconds == 0,
{
    CookieSpec {
        name: String::from_str(name),
        value: String::new(),
        http_only: true,
        same_site: SameSite::Lax,
        max_age_seconds: 0,
        secure: true,
    }
}

/// The subject of a pending Google sign-in, read from its cookie.
pub struct GoogleOAuthUserSub(pub String);

/// The subject of a pending Google sign-in, where its cookie is present.
pub struct OptionalGoogleOAuthUserSub(pub Option<String>);

/// The id of a pending GitHub sign-in, read from its cookie.
pub struct GithubOAuthUserId(pub i64);

/// The id of a pending GitHub sign-in, where its cookie is present.
pub struct OptionalGithubOAuthUserId(pub Option<i64>);

/// The error for a GitHub sign-in cookie that does not hold an integer.
pub open spec fn not_integer_error(e: AppError) -> bool {
    e matches AppError::ValidationError(m) && m@ == "Github oauth user id is not integer"@
}

impl GoogleOAuthUserSub {
    /// Reads the Google sign-in cookie; refused when it is absent.
    pub fn from_cookie(value: Option<String>) -> (res: Result<GoogleOAuthUserSub, AppError>)
        ensures
            value matches Some(v) ==> (res matches Ok(s) && s.0@ == v@),
            value is None ==> (res matches Err(e) && e is MissingGoogleOAuthSubError),
    {
        match value {
            Some(v) => Ok(GoogleOAuthUserSub(v)),
            None => Err(AppError::MissingGoogleOAuthSubError),
        }
    }
}

impl OptionalGoogleOAuthUserSub {
    /// Reads the Google sign-in cookie, if any.
    pub fn from_cookie(value: Option<String>) -> (res: OptionalGoogleOAuthUserSub)
        ensures
            res.0 == value,
    {
        OptionalGoogleOAuthUserSub(value)
    }
}

impl GithubOAuthUserId {
    /// Reads the GitHub sign-in cookie; refused when it is absent or does
    /// not hold a decimal `i64`.
    pub fn from_cookie(value: Option<String>) -> (res: Result<GithubOAuthUserId, AppError>)
        ensures
            value is None ==> (res matches Err(e) && e is MissingGithubOAuthIdError),
            value matches Some(v) ==> match decimal_i64(v@) {
                Some(n) => res matches Ok(g) && g.0 == n,
                None => res matches Err(e) && not_integer_error(e),
            },
    {
        match value {
            Some(v) => match parse_i64(v.as_str()) {
                Some(n) => Ok(GithubOAuthUserId(n)),
                None => Err(AppError::ValidationError(String::from_str("Github oauth user id is not integer"))),
            },
            None => Err(AppError::MissingGithubOAuthIdError),
        }
    }
}

impl OptionalGithubOAuthUserId {
    /// Reads the GitHub sign-in cookie, if any; refused when it does not hold
    /// a decimal `i64`.
    pub fn from_cookie(value: Option<String>) -> (res: Result<OptionalGithubOAuthUserId, AppError>)
        ensures
            value is None ==> (res matches Ok(g) && g.0 is None),
            value matches Some(v) ==> match decimal_i64(v@) {
                Some(n) => res matches Ok(g) && g.0 == Some(n),
                None => res matches Err(e) && not_integer_error(e),
            },
    {
        match value {
            Some(v) => match parse_i64(v.as_str()) {
                Some(n) => Ok(OptionalGithubOAuthUserId(Some(n))),
                None => Err(AppError::ValidationError(String::from_str("Github oauth user id is not integer"))),
            },
            None => Ok(OptionalGithubOAuthUserId(None)),
        }
    }
}

} // verus!
