//! Third-party sign-in: what is asked of each provider, and the cookies
//! that carry a sign-in from its start to its callback and on to profile
//! completion.

use vstd::prelude::*;

use crate::config::Config;
use crate::cookies::{
    lax_cookie, secure_cookies, sign_in_cookie, CookieSpec, EMAIL_OAUTH_USER_ID_COOKIE,
    GITHUB_OAUTH_USER_ID_COOKIE, GOOGLE_OAUTH_USER_SUB_COOKIE, PKCE_VERIFIER_COOKIE, SIGN_IN_COOKIE_MAX_AGE,
};
use crate::errors::AppError;
use crate::users::Provider;

verus! {

/// Google's user-info endpoint.
pub const GOOGLE_USERINFO_URL: &'static str = "https://openidconnect.googleapis.com/v1/userinfo";
/// Google's people endpoint, asked for the phone numbers.
pub const GOOGLE_PHONE_NUMBERS_URL: &'static str = "https://people.googleapis.com/v1/people/me?personFields=phoneNumbers";
/// GitHub's user endpoint.
pub const GITHUB_USER_URL: &'static str = "https://api.github.com/user";
/// The user agent that GitHub's API requires.
pub const GITHUB_USER_AGENT: &'static str = "PineSpotApp";

/// The permissions asked of Google: identity, e-mail, profile and phone
/// numbers.
pub fn google_scopes() -> (res: Vec<&'static str>)
    ensures
        res@.len() == 4,
        res@[0]@ == "openid"@,
        res@[1]@ == "email"@,
        res@[2]@ == "profile"@,
        res@[3]@ == "https://www.googleapis.com/auth/user.phonenumbers.read"@,
{
    let mut v: Vec<&'static str> = Vec::new();
    v.push("openid");
    v.push("email");
    v.push("profile");
    v.push("https://www.googleapis.com/auth/user.phonenumbers.read");
    v
}

/// The permission asked of GitHub: the user's e-mail addresses.
pub fn github_scopes() -> (res: Vec<&'static str>)
    ensures
        res@.len() == 1,
        res@[0]@ == "user:email"@,
{
    let mut v: Vec<&'static str> = Vec::new();
    v.push("user:email");
    v
}

/// The cookie that keeps the PKCE verifier of a sign-in until its callback.
pub fn pkce_verifier_cookie(verifier: &str, config: &Config) -> (res: CookieSpec)
    ensures
        lax_cookie(res, "pkce_verifier"@, verifier@, SIGN_IN_COOKIE_MAX_AGE as int, secure_cookies(*config)),
{
    sign_in_cookie(PKCE_VERIFIER_COOKIE, verifier, config)
}

/// The PKCE verifier of a callback, from its cookie; refused when absent.
pub fn pkce_verifier_from_cookie(value: Option<String>) -> (res: Result<String, AppError>)
    ensures
        value matches Some(v) ==> (res matches Ok(r) && r@ == v@),
        value is None ==> (res matches Err(e) && e is MissingPkceCodeVerifierError),
{
    match value {
        Some(v) => Ok(v),
        None => Err(AppError::MissingPkceCodeVerifierError),
    }
}

/// The name of the cookie that marks a pending sign-up from a provider.
pub open spec fn pending_cookie_name(provider: Provider) -> Seq<char> {
    match provider {
        Provider::Google => "google_oauth_user_sub"@,
        Provider::Github => "github_oauth_user_id"@,
        Provider::Email => "email_oauth_user_id"@,
    }
}

/// The cookie that marks a pending sign-up and names it, kept until the
/// profile is completed.
pub fn pending_sign_up_cookie(provider: Provider, id: &str, config: &Config) -> (res: CookieSpec)
    ensures
        lax_cookie(res, pending_cookie_name(provider), id@, SIGN_IN_COOKIE_MAX_AGE as int, secure_cookies(*config)),
{
    let name = match provider {
        Provider::Google => GOOGLE_OAUTH_USER_SUB_COOKIE,
        Provider::Github => GITHUB_OAUTH_USER_ID_COOKIE,
        Provider::Email => EMAIL_OAUTH_USER_ID_COOKIE,
    };
    sign_in_cookie(name, id, config)
}

/// The pending sign-up that a request carries: its id and where it came
/// from.
pub struct OAuthUserIdCookie {
    pub id: String,
    pub provider: Provider,
}

/// The pending sign-up, if any, that a request's sign-in cookies name.
pub struct OptionalOAuthUserIdCookie(pub Option<OAuthUserIdCookie>);

/// The pending sign-up named by the sign-in cookies: the Google cookie
/// first, then the GitHub one, then the e-mail one.
pub open spec fn pending_sign_up_of(google: Option<String>, github: Option<String>, email: Option<String>) -> Option<(Seq<char>, Provider)> {
    match google {
        Some(g) => Some((g@, Provider::Google)),
        None => match github {
            Some(h) => Some((h@, Provider::Github)),
            None => match email {
                Some(e) => Some((e@, Provider::Email)),
                None => None,
            },
        },
    }
}

impl OptionalOAuthUserIdCookie {
    /// Reads the pending sign-up from the Google, GitHub and e-mail sign-in
    /// cookies, in that order of precedence.
    pub fn from_cookies(google: Option<String>, github: Option<String>, email: Option<String>) -> (res: OptionalOAuthUserIdCookie)
        ensures
            match pending_sign_up_of(google, github, email) {
                Some((id, p)) => res.0 matches Some(c) && c.id@ == id && c.provider == p,
                None => res.0 is None,
            },
    {
        match google {
            Some(g) => OptionalOAuthUserIdCookie(Some(OAuthUserIdCookie { id: g, provider: Provider::Google })),
            None => match github {
                Some(h) => OptionalOAuthUserIdCookie(Some(OAuthUserIdCookie { id: h, provider: Provider::Github })),
                None => match email {
                    Some(e) => OptionalOAuthUserIdCookie(Some(OAuthUserIdCookie { id: e, provider: Provider::Email })),
                    None => OptionalOAuthUserIdCookie(None),
                },
            },
        }
    }
}

impl OAuthUserIdCookie {
    /// Reads the pending sign-up from the sign-in cookies; refused when
    /// there is none.
    pub fn from_cookies(google: Option<String>, github: Option<String>, email: Option<String>) -> (res: Result<OAuthUserIdCookie, AppError>)
        ensures
            match pending_sign_up_of(google, github, email) {
                Some((id, p)) => res matches Ok(c) && c.id@ == id && c.provider == p,
                None => res matches Err(e) && e is MissingOAuthIdError,
            },
    {
        match OptionalOAuthUserIdCookie::from_cookies(google, github, email).0 {
            Some(c) => Ok(c),
            None => Err(AppError::MissingOAuthIdError),
        }
    }

    /// Whether completing this sign-up sends a verification e-mail: only an
    /// e-mail sign-up, whose address no provider has vouched for, does.
    pub fn sends_verification_email(&self) -> (res: bool)
        ensures
            res == (self.provider == Provider::Email),
    {
        match self.provider {
            Provider::Email => true,
            _ => false,
        }
    }
}

/// What a request carries under the cookie name `read_name` after the
/// cookie `written_name` was set to `value` and no other sign-in cookie was.
pub open spec fn cookie_if_named(written_name: Seq<char>, value: String, read_name: Seq<char>) -> Option<String> {
    if written_name == read_name {
        Some(value)
    } else {
        None
    }
}

/// The pending-sign-up cookie written for a provider reads back, through
/// the names under which the sign-in cookies are read, as a sign-up from
/// that same provider with the same id.
pub proof fn lemma_pending_cookie_reads_back(provider: Provider, id: String)
    ensures
        pending_sign_up_of(
            cookie_if_named(pending_cookie_name(provider), id, GOOGLE_OAUTH_USER_SUB_COOKIE@),
            cookie_if_named(pending_cookie_name(provider), id, GITHUB_OAUTH_USER_ID_COOKIE@),
            cookie_if_named(pending_cookie_name(provider), id, EMAIL_OAUTH_USER_ID_COOKIE@),
        ) == Some((id@, provider)),
{
    reveal_strlit("google_oauth_user_sub");
    reveal_strlit("github_oauth_user_id");
    reveal_strlit("email_oauth_user_id");
    assert("google_oauth_user_sub"@[1] != "github_oauth_user_id"@[1]);
    assert("google_oauth_user_sub"@[0] != "email_oauth_user_id"@[0]);
    assert("github_oauth_user_id"@[0] != "email_oauth_user_id"@[0]);
}

} // verus!
