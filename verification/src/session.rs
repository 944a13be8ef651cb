//! Sessions: the tokens and cookies a sign-in hands out, the checks on the
//! tokens that come back, and renewing a session.

use vstd::prelude::*;

use crate::config::Config;
use crate::cookies::{
    expired_cookie, lax_cookie, refresh_cookie_age_fits, refresh_cookie_days, refresh_token_cookie,
    secure_cookies, CookieSpec, EMAIL_OAUTH_USER_ID_COOKIE, GITHUB_OAUTH_USER_ID_COOKIE,
    GOOGLE_OAUTH_USER_SUB_COOKIE,
};
use crate::errors::AppError;
use crate::jwt::{
    clock_seconds, create_token, create_token_at, issued_for, lifetime_is_set, possible_verification, read_from,
    secret_of, token_issued_at, verify_token, Claims, TokenType, MAX_INSTANT_SECONDS,
};
use crate::users::Tokens;

verus! {

/// What a sign-in hands out: an access token and a refresh token, and the
/// cookie that keeps the refresh token in a browser.
pub struct Session {
    pub tokens: Tokens,
    pub refresh_cookie: CookieSpec,
}

/// The settings let the service issue access and refresh tokens and the
/// refresh-token cookie.
pub open spec fn can_issue_sessions(config: Config) -> bool {
    &&& config.secret_key is Some
    &&& lifetime_is_set(config, TokenType::Access)
    &&& lifetime_is_set(config, TokenType::Refresh)
    &&& refresh_cookie_age_fits(config)
}

/// The cookie carries the refresh token for as long as the settings say.
pub open spec fn is_refresh_cookie(c: CookieSpec, token: Seq<char>, config: Config) -> bool {
    lax_cookie(c, "refresh_token"@, token, refresh_cookie_days(config) * 86400, secure_cookies(config))
}

/// Signs a user in: a fresh access token and refresh token for them, and the
/// cookie that carries the refresh token.
pub fn issue_session(config: &Config, user_id: u128) -> (res: Result<Session, AppError>)
    requires
        can_issue_sessions(*config),
    ensures
        res matches Ok(s) ==> {
            &&& issued_for(s.tokens.access_token@, *config, user_id, TokenType::Access)
            &&& s.tokens.refresh_token matches Some(r) && issued_for(
                r@,
                *config,
                user_id,
                TokenType::Refresh,
            ) && is_refresh_cookie(s.refresh_cookie, r@, *config)
        },
        res matches Err(e) ==> e is TokenCreationError,
{
    let access = create_token(config, user_id, TokenType::Access)?;
    let refresh = create_token(config, user_id, TokenType::Refresh)?;
    let cookie = refresh_token_cookie(refresh.as_str(), config);
    Ok(Session { tokens: Tokens { access_token: access, refresh_token: Some(refresh) }, refresh_cookie: cookie })
}

/// The cookies that end a pending sign-up once the profile is complete: the
/// e-mail, GitHub and Google sign-in cookies, each cleared.
pub fn sign_up_cleanup_cookies() -> (res: Vec<CookieSpec>)
    ensures
        res@.len() == 3,
        res@[0].name@ == "email_oauth_user_id"@,
        res@[1].name@ == "github_oauth_user_id"@,
        res@[2].name@ == "google_oauth_user_sub"@,
        forall|i: int|
            0 <= i < 3 ==> (#[trigger] res@[i]).max_age_seconds == 0 && res@[i].value@.len() == 0
                && res@[i].secure && res@[i].http_only,
{
    let mut v: Vec<CookieSpec> = Vec::new();
    v.push(expired_cookie(EMAIL_OAUTH_USER_ID_COOKIE));
    v.push(expired_cookie(GITHUB_OAUTH_USER_ID_COOKIE));
    v.push(expired_cookie(GOOGLE_OAUTH_USER_SUB_COOKIE));
    v
}

/// The link of a verification e-mail: the configured front-end page, with a
/// fresh e-mail verification token for the user as its query.
pub fn verification_link(config: &Config, user_id: u128) -> (res: Result<String, AppError>)
    requires
        config.secret_key is Some,
        lifetime_is_set(*config, TokenType::EmailVerification),
    ensures
        res matches Ok(link) ==> exists|token: Seq<char>|
            #[trigger] issued_for(token, *config, user_id, TokenType::EmailVerification)
                && link@ == config.frontend_endpoint@ + "?"@ + token,
        res matches Err(e) ==> e is TokenCreationError,
{
    let token = create_token(config, user_id, TokenType::EmailVerification)?;
    let mut link = config.frontend_endpoint.clone();
    link.append("?");
    link.append(token.as_str());
    assert(issued_for(token@, *config, user_id, TokenType::EmailVerification));
    Ok(link)
}

/// A verification outcome handed on by a type check: an error unchanged,
/// and claims of the wanted type as they are.
pub open spec fn passes_on(v: Result<Claims, AppError>, typ: TokenType, res: Result<Claims, AppError>) -> bool {
    match v {
        Err(e) => res == Err::<Claims, AppError>(e),
        Ok(c) => c.typ == typ ==> res == Ok::<Claims, AppError>(c),
    }
}

/// The token verified, but is of another type than the one wanted.
pub open spec fn of_other_type(v: Result<Claims, AppError>, typ: TokenType) -> bool {
    v matches Ok(c) && c.typ != typ
}

/// The refusal of a token that is not an access token.
pub open spec fn access_refusal(e: AppError) -> bool {
    e matches AppError::Unauthorized(m) && m@ == "Access token required"@
}

/// The refusal of a token that is not a refresh token.
pub open spec fn refresh_refusal(e: AppError) -> bool {
    e matches AppError::Unauthorized(m) && m@ == "Refresh token required"@
}

/// Keeps claims of the wanted type; refuses others with the given error.
pub fn require_token_type(claims: Claims, typ: TokenType, refusal: AppError) -> (res: Result<Claims, AppError>)
    ensures
        claims.typ == typ ==> res == Ok::<Claims, AppError>(claims),
        claims.typ != typ ==> res == Err::<Claims, AppError>(refusal),
{
    if claims.typ == typ {
        Ok(claims)
    } else {
        Err(refusal)
    }
}

/// Checks the bearer token of a request that needs a signed-in user: it
/// must be present, verify, and be an access token. A verification error is
/// handed on unchanged.
pub fn access_claims(config: &Config, bearer: Option<String>) -> (res: Result<Claims, AppError>)
    requires
        config.secret_key is Some,
    ensures
        bearer is None ==> (res matches Err(e) && e is MissingAccessToken),
        bearer matches Some(t) ==> exists|v: Result<Claims, AppError>|
            #[trigger] possible_verification(t@, secret_of(*config), v) && passes_on(v, TokenType::Access, res)
                && (of_other_type(v, TokenType::Access) ==> (res matches Err(e) && access_refusal(e))),
{
    let token = match bearer {
        Some(t) => t,
        None => return Err(AppError::MissingAccessToken),
    };
    let verified = verify_token(config, token.as_str());
    let ghost v = verified;
    let res = match verified {
        Ok(claims) => require_token_type(
            claims,
            TokenType::Access,
            AppError::Unauthorized(String::from_str("Access token required")),
        ),
        Err(e) => Err(e),
    };
    assert(possible_verification(token@, secret_of(*config), v));
    res
}

/// Checks the token of an e-mail verification link: it must verify and be
/// an e-mail verification token. A verification error is handed on
/// unchanged; a token of another type is refused as invalid.
pub fn email_verification_claims(config: &Config, token: &str) -> (res: Result<Claims, AppError>)
    requires
        config.secret_key is Some,
    ensures
        exists|v: Result<Claims, AppError>|
            #[trigger] possible_verification(token@, secret_of(*config), v) && passes_on(
                v,
                TokenType::EmailVerification,
                res,
            ) && (of_other_type(v, TokenType::EmailVerification) ==> (res matches Err(e)
                && e is InvalidTokenError)),
{
    let verified = verify_token(config, token);
    let ghost v = verified;
    let res = match verified {
        Ok(claims) => require_token_type(claims, TokenType::EmailVerification, AppError::InvalidTokenError),
        Err(e) => Err(e),
    };
    assert(possible_verification(token@, secret_of(*config), v));
    res
}

/// The days before expiry at which a refresh token is renewed: as
/// configured, a week when unset.
pub open spec fn renewal_threshold_days(config: Config) -> int {
    match config.refresh_token_renewal_threshold_days {
        Some(d) => d as int,
        None => 7,
    }
}

/// The renewal threshold, in seconds, is a number that an `i64` holds.
pub open spec fn renewal_threshold_fits(config: Config) -> bool {
    i64::MIN <= renewal_threshold_days(config) * 86400 <= i64::MAX
}

/// The time left before `exp`, seen at `now`, saturated to the `i64` range.
pub open spec fn time_left(exp: i64, now: i64) -> int {
    let d = exp - now;
    if d > i64::MAX {
        i64::MAX as int
    } else if d < i64::MIN {
        i64::MIN as int
    } else {
        d
    }
}

/// A refresh token expiring at `exp` is renewed at `now` when less than the
/// threshold is left of it.
pub open spec fn renewal_due(exp: i64, now: i64, threshold_seconds: int) -> bool {
    time_left(exp, now) < threshold_seconds
}

/// Whether a refresh token expiring at `exp` is renewed at `now`.
pub fn needs_renewal(exp: i64, now: i64, threshold_seconds: i64) -> (res: bool)
    ensures
        res == renewal_due(exp, now, threshold_seconds as int),
{
    let d: i128 = exp as i128 - now as i128;
    let left: i64 = if d > i64::MAX as i128 {
        i64::MAX
    } else if d < i64::MIN as i128 {
        i64::MIN
    } else {
        d as i64
    };
    left < threshold_seconds
}

/// The result of renewing a session: a fresh access token, a renewed
/// refresh token where the old one was near its expiry, and the cookie that
/// carries the renewed token to a browser.
pub struct Refreshed {
    pub tokens: Tokens,
    pub cookie: Option<CookieSpec>,
}

/// The settings let the service renew sessions.
pub open spec fn can_renew_sessions(config: Config) -> bool {
    can_issue_sessions(config) && renewal_threshold_fits(config)
}

/// The refresh token a renewal reads: the browser's cookie where there is
/// one, the bearer token of the request otherwise.
pub open spec fn presented_token(cookie_token: Option<String>, bearer_token: Option<String>) -> Option<Seq<char>> {
    match cookie_token {
        Some(t) => Some(t@),
        None => match bearer_token {
            Some(t) => Some(t@),
            None => None,
        },
    }
}

/// What renewing at the instant `now` gives for a refresh token that holds
/// `claims`: an access token issued at `now`; a refresh token issued at
/// `now` exactly when less than the renewal threshold is left of the old
/// one at `now`; and, for a browser, the cookie that carries it.
pub open spec fn renewal_at(r: Refreshed, claims: Claims, config: Config, from_browser: bool, now: i64) -> bool {
    &&& token_issued_at(r.tokens.access_token@, config, claims.sub, TokenType::Access, now as int)
    &&& r.tokens.refresh_token is Some <==> renewal_due(claims.exp, now, renewal_threshold_days(config) * 86400)
    &&& r.tokens.refresh_token matches Some(n) ==> token_issued_at(
        n@,
        config,
        claims.sub,
        TokenType::Refresh,
        now as int,
    )
    &&& r.cookie is Some <==> (from_browser && r.tokens.refresh_token is Some)
    &&& r.cookie matches Some(c) ==> is_refresh_cookie(c, r.tokens.refresh_token->Some_0@, config)
}

/// Renewing at `now` cannot issue the tokens it owes: the new access
/// token's expiry, or that of a due refresh token, is an instant that a UTC
/// date and time cannot hold.
pub open spec fn renewal_blocked(claims: Claims, config: Config, now: i64) -> bool {
    ||| crate::jwt::claims_issued_at(config, claims.sub, TokenType::Access, now as int) is None
    ||| renewal_due(claims.exp, now, renewal_threshold_days(config) * 86400)
        && crate::jwt::claims_issued_at(config, claims.sub, TokenType::Refresh, now as int) is None
}

/// What a successful renewal gives: the renewal at the instant the system
/// clock gave.
pub open spec fn renewal_of(r: Refreshed, claims: Claims, config: Config, from_browser: bool) -> bool {
    exists|now: i64| 0 <= now <= MAX_INSTANT_SECONDS && #[trigger] renewal_at(r, claims, config, from_browser, now)
}

/// What renewing a session gives once the presented token has been read
/// with the outcome `v`: a verification error unchanged; a refusal for a
/// token of another type; for a refresh token, the renewal, or a failure
/// of issuing the new tokens.
pub open spec fn refresh_outcome(
    v: Result<Claims, AppError>,
    res: Result<Refreshed, AppError>,
    config: Config,
    from_browser: bool,
) -> bool {
    match v {
        Err(e) => res == Err::<Refreshed, AppError>(e),
        Ok(c) => if c.typ != TokenType::Refresh {
            res matches Err(e) && refresh_refusal(e)
        } else {
            &&& res matches Ok(r) ==> renewal_of(r, c, config, from_browser)
            &&& res matches Err(e) ==> e is TokenCreationError
        },
    }
}

/// Renews a session from a refresh token, read from the browser's cookie or
/// else from the bearer token. The token must verify and be a refresh
/// token; a verification error is handed on unchanged. A new access token
/// is always issued; the refresh token is renewed when less than the
/// renewal threshold is left of it, and a browser gets the renewed one in
/// its cookie.
pub fn refresh_session(config: &Config, cookie_token: Option<String>, bearer_token: Option<String>) -> (res: Result<Refreshed, AppError>)
    requires
        can_renew_sessions(*config),
    ensures
        presented_token(cookie_token, bearer_token) is None ==> (res matches Err(e) && e is MissingAuthorizationToken),
        presented_token(cookie_token, bearer_token) matches Some(t) ==> exists|v: Result<Claims, AppError>|
            #[trigger] possible_verification(t, secret_of(*config), v) && refresh_outcome(
                v,
                res,
                *config,
                cookie_token is Some,
            ),
{
    let from_browser = cookie_token.is_some();
    let token = match cookie_token {
        Some(t) => t,
        None => match bearer_token {
            Some(t) => t,
            None => return Err(AppError::MissingAuthorizationToken),
        },
    };
    assert(presented_token(cookie_token, bearer_token) == Some(token@));
    let verified = verify_token(config, token.as_str());
    let ghost v = verified;
    assert(possible_verification(token@, secret_of(*config), v));
    let checked = match verified {
        Ok(c) => require_token_type(c, TokenType::Refresh, AppError::Unauthorized(String::from_str("Refresh token required"))),
        Err(e) => Err(e),
    };
    let claims = match checked {
        Ok(c) => c,
        Err(e) => {
            assert(refresh_outcome(v, Err::<Refreshed, AppError>(e), *config, from_browser));
            assert(possible_verification(presented_token(cookie_token, bearer_token)->Some_0, secret_of(*config), v));
            return Err(e);
        },
    };
    assert(v == Ok::<Claims, AppError>(claims));
    let res = renew_session(config, claims, from_browser);
    assert(refresh_outcome(v, res, *config, from_browser));
    assert(possible_verification(presented_token(cookie_token, bearer_token)->Some_0, secret_of(*config), v));
    res
}

/// Renews, at the instant `now`, the session of a verified refresh token: a
/// new access token, and a new refresh token (in a cookie for a browser)
/// when less than the renewal threshold is left of the old one. Fails with
/// `TokenCreationError` exactly where a token it owes cannot be issued at
/// `now`.
pub fn renew_session_at(config: &Config, claims: Claims, from_browser: bool, now: i64) -> (res: Result<Refreshed, AppError>)
    requires
        can_renew_sessions(*config),
    ensures
        res matches Ok(r) ==> renewal_at(r, claims, *config, from_browser, now),
        config.refresh_token_renewal_threshold_days is None ==> (res matches Ok(r) ==> (r.tokens.refresh_token is Some
            <==> claims.exp - now < 7 * 86400)),
        config.refresh_token_renewal_threshold_days matches Some(d) ==> (res matches Ok(r) ==> (
        r.tokens.refresh_token is Some <==> claims.exp - now < d * 86400)),
        res is Err <==> renewal_blocked(claims, *config, now),
        res matches Err(e) ==> e is TokenCreationError,
{
    let days: i64 = match config.refresh_token_renewal_threshold_days {
        Some(d) => d,
        None => 7,
    };
    let threshold = days * 86400;
    let renew = needs_renewal(claims.exp, now, threshold);
    let new_refresh = if renew {
        Some(create_token_at(config, claims.sub, TokenType::Refresh, now)?)
    } else {
        None
    };
    let cookie = if from_browser {
        match &new_refresh {
            Some(r) => Some(refresh_token_cookie(r.as_str(), config)),
            None => None,
        }
    } else {
        None
    };
    let access = create_token_at(config, claims.sub, TokenType::Access, now)?;
    let r = Refreshed { tokens: Tokens { access_token: access, refresh_token: new_refresh }, cookie };
    assert(renewal_at(r, claims, *config, from_browser, now));
    proof {
        lemma_renewal_threshold(r, claims, *config, from_browser, now);
    }
    Ok(r)
}

/// Renews the session of a verified refresh token at the instant the system
/// clock gives (see [`renew_session_at`]); a clock before the epoch or past
/// the latest instant a UTC date and time can hold is a `TokenCreationError`.
fn renew_session(config: &Config, claims: Claims, from_browser: bool) -> (res: Result<Refreshed, AppError>)
    requires
        can_renew_sessions(*config),
    ensures
        res matches Ok(r) ==> renewal_of(r, claims, *config, from_browser),
        res matches Err(e) ==> e is TokenCreationError,
{
    let now = match clock_seconds() {
        Some(t) => {
            if t > MAX_INSTANT_SECONDS as u64 {
                return Err(AppError::TokenCreationError);
            }
            t as i64
        },
        None => return Err(AppError::TokenCreationError),
    };
    let res = renew_session_at(config, claims, from_browser, now);
    if let Ok(r) = &res {
        assert(renewal_at(*r, claims, *config, from_browser, now));
    }
    res
}

/// A renewal renews the refresh token exactly when less than the threshold
/// is left of it: the configured number of days, or seven days when the
/// setting is unset.
pub proof fn lemma_renewal_threshold(r: Refreshed, claims: Claims, config: Config, from_browser: bool, now: i64)
    requires
        renewal_at(r, claims, config, from_browser, now),
        renewal_threshold_fits(config),
    ensures
        config.refresh_token_renewal_threshold_days is None ==> (r.tokens.refresh_token is Some <==> claims.exp
            - now < 7 * 86400),
        config.refresh_token_renewal_threshold_days matches Some(d) ==> (r.tokens.refresh_token is Some
            <==> claims.exp - now < d * 86400),
{
    match config.refresh_token_renewal_threshold_days {
        Some(d) => {
            assert(d * 86400 != i64::MIN);
        },
        None => {},
    }
}

} // verus!
