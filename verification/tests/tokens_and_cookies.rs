use pinespot::config::Config;
use pinespot::cookies::{
    expired_cookie, refresh_token_cookie, sign_in_cookie, GithubOAuthUserId, GoogleOAuthUserSub,
    OptionalGithubOAuthUserId, OptionalGoogleOAuthUserSub, SameSite,
};
use pinespot::errors::AppError;
use pinespot::search::{listing_ids_from_points, PointIdValue};
use pinespot::media::picture_location;
use pinespot::jwt::{create_token, create_token_at, token_claims, verify_token, verify_token_at, TokenType};
use pinespot::session::{
    access_claims, email_verification_claims, issue_session, needs_renewal, refresh_session, renew_session_at, require_token_type,
    sign_up_cleanup_cookies, verification_link,
};

fn config() -> Config {
    Config {
        secret_key: Some("a test secret".to_string()),
        access_token_expire_in_minute: Some(15),
        refresh_token_expire_in_days: Some(30),
        email_verification_token_expire_in_hours: Some(24),
        refresh_token_renewal_threshold_days: Some(7),
        cookie_secure: None,
        frontend_endpoint: "https://pinespot.uz/verify".to_string(),
        email_service_api_key: None,
        qdrant_url: None,
        qdrant_api_key: None,
    }
}

const USER: u128 = 0x6f9619ff_8b86_d011_b42d_00c04fc964ff;

#[test]
fn uuid_text_round_trip() {
    let t = "6f9619ff-8b86-d011-b42d-00c04fc964ff";
    assert_eq!(picture_location(USER, USER, "png"), format!("{t}/{t}.png"));
    let points = vec![Some(PointIdValue::Uuid(t.to_string())), Some(PointIdValue::Uuid("not a uuid".to_string()))];
    assert_eq!(listing_ids_from_points(&points), Some(vec![USER]));
}

#[test]
fn token_claims_span_one_lifetime() {
    let c = token_claims(&config(), USER, TokenType::Access, 1_000).unwrap();
    assert_eq!((c.sub, c.typ, c.iat, c.exp), (USER, TokenType::Access, 1_000, 1_000 + 15 * 60));
    let c = token_claims(&config(), USER, TokenType::Refresh, 0).unwrap();
    assert_eq!(c.exp, 30 * 86400);
    let c = token_claims(&config(), USER, TokenType::EmailVerification, 10).unwrap();
    assert_eq!(c.exp, 10 + 24 * 3600);
    let mut far = config();
    far.refresh_token_expire_in_days = Some(100_000_000);
    assert!(token_claims(&far, USER, TokenType::Refresh, 0).is_none());
}

#[test]
fn issued_tokens_read_back() {
    let cfg = config();
    for typ in [TokenType::Access, TokenType::Refresh, TokenType::EmailVerification] {
        let token = create_token(&cfg, USER, typ).unwrap();
        let claims = verify_token(&cfg, &token).unwrap();
        assert_eq!(claims.sub, USER);
        assert_eq!(claims.typ, typ);
        assert!(claims.exp > claims.iat);
    }
}

#[test]
fn tokens_under_another_secret_are_refused() {
    let token = create_token(&config(), USER, TokenType::Access).unwrap();
    let mut other = config();
    other.secret_key = Some("another secret".to_string());
    assert!(matches!(verify_token(&other, &token), Err(AppError::JsonWebTokenError(_))));
    assert!(matches!(verify_token(&config(), "garbage"), Err(AppError::JsonWebTokenError(_))));
}

#[test]
fn access_requires_an_access_token() {
    let cfg = config();
    assert!(matches!(access_claims(&cfg, None), Err(AppError::MissingAccessToken)));
    let refresh = create_token(&cfg, USER, TokenType::Refresh).unwrap();
    match access_claims(&cfg, Some(refresh)) {
        Err(AppError::Unauthorized(m)) => assert_eq!(m, "Access token required"),
        other => panic!("unexpected {:?}", other.map(|c| c.sub)),
    }
    let access = create_token(&cfg, USER, TokenType::Access).unwrap();
    assert_eq!(access_claims(&cfg, Some(access)).unwrap().sub, USER);
}

#[test]
fn verification_requires_a_verification_token() {
    let cfg = config();
    let access = create_token(&cfg, USER, TokenType::Access).unwrap();
    assert!(matches!(email_verification_claims(&cfg, &access), Err(AppError::InvalidTokenError)));
    let link = verification_link(&cfg, USER).unwrap();
    let token = link.strip_prefix("https://pinespot.uz/verify?").unwrap();
    let claims = email_verification_claims(&cfg, token).unwrap();
    assert_eq!(claims.typ, TokenType::EmailVerification);
    assert_eq!(claims.sub, USER);
}

#[test]
fn sessions_carry_both_tokens() {
    let cfg = config();
    let s = issue_session(&cfg, USER).unwrap();
    let refresh = s.tokens.refresh_token.clone().unwrap();
    assert_eq!(verify_token(&cfg, &s.tokens.access_token).unwrap().typ, TokenType::Access);
    assert_eq!(verify_token(&cfg, &refresh).unwrap().typ, TokenType::Refresh);
    assert_eq!(s.refresh_cookie.name, "refresh_token");
    assert_eq!(s.refresh_cookie.value, refresh);
    assert_eq!(s.refresh_cookie.max_age_seconds, 30 * 86400);
    assert!(s.refresh_cookie.secure && s.refresh_cookie.http_only);
    assert_eq!(s.refresh_cookie.same_site, SameSite::Lax);
}

#[test]
fn renewal_threshold() {
    assert!(needs_renewal(100, 50, 51));
    assert!(!needs_renewal(100, 50, 50));
    assert!(needs_renewal(i64::MIN, i64::MAX, 0));
    assert!(!needs_renewal(i64::MAX, i64::MIN, i64::MAX));
}

#[test]
fn refresh_needs_a_refresh_token() {
    let cfg = config();
    assert!(matches!(refresh_session(&cfg, None, None), Err(AppError::MissingAuthorizationToken)));
    let access = create_token(&cfg, USER, TokenType::Access).unwrap();
    match refresh_session(&cfg, None, Some(access)) {
        Err(AppError::Unauthorized(m)) => assert_eq!(m, "Refresh token required"),
        _ => panic!("an access token must not renew a session"),
    }
}

#[test]
fn refresh_renews_only_near_expiry() {
    let cfg = config();
    let refresh = create_token(&cfg, USER, TokenType::Refresh).unwrap();
    // Thirty days left, threshold a week: no renewal.
    let r = refresh_session(&cfg, Some(refresh.clone()), None).unwrap();
    assert!(r.tokens.refresh_token.is_none());
    assert!(r.cookie.is_none());
    assert_eq!(verify_token(&cfg, &r.tokens.access_token).unwrap().sub, USER);
    // A threshold longer than the lifetime: renewed, and the browser gets a cookie.
    let mut eager = config();
    eager.refresh_token_renewal_threshold_days = Some(60);
    let r = refresh_session(&eager, Some(refresh.clone()), None).unwrap();
    let renewed = r.tokens.refresh_token.clone().unwrap();
    assert_eq!(r.cookie.unwrap().value, renewed);
    // Through the bearer header: renewed, but no cookie.
    let r = refresh_session(&eager, None, Some(refresh)).unwrap();
    assert!(r.tokens.refresh_token.is_some());
    assert!(r.cookie.is_none());
}

#[test]
fn cookies() {
    let mut cfg = config();
    let c = sign_in_cookie("pkce_verifier", "v", &cfg);
    assert_eq!((c.name.as_str(), c.value.as_str(), c.max_age_seconds, c.secure), ("pkce_verifier", "v", 31_536_000, true));
    cfg.cookie_secure = Some(false);
    assert!(!sign_in_cookie("a", "b", &cfg).secure);
    cfg.refresh_token_expire_in_days = None;
    assert_eq!(refresh_token_cookie("t", &cfg).max_age_seconds, 30 * 86400);
    let gone = expired_cookie("google_oauth_user_sub");
    assert_eq!((gone.value.as_str(), gone.max_age_seconds, gone.secure), ("", 0, true));
    let cleanup = sign_up_cleanup_cookies();
    let names: Vec<&str> = cleanup.iter().map(|c| c.name.as_str()).collect();
    assert_eq!(names, vec!["email_oauth_user_id", "github_oauth_user_id", "google_oauth_user_sub"]);
}

#[test]
fn sign_in_cookies_are_read() {
    assert_eq!(GoogleOAuthUserSub::from_cookie(Some("abc".into())).unwrap().0, "abc");
    assert!(matches!(GoogleOAuthUserSub::from_cookie(None), Err(AppError::MissingGoogleOAuthSubError)));
    assert_eq!(OptionalGoogleOAuthUserSub::from_cookie(None).0, None);
    assert_eq!(GithubOAuthUserId::from_cookie(Some("583231".into())).unwrap().0, 583231);
    assert!(matches!(GithubOAuthUserId::from_cookie(None), Err(AppError::MissingGithubOAuthIdError)));
    match GithubOAuthUserId::from_cookie(Some("octocat".into())) {
        Err(AppError::ValidationError(m)) => assert_eq!(m, "Github oauth user id is not integer"),
        _ => panic!("a non-integer id must be refused"),
    }
    assert_eq!(OptionalGithubOAuthUserId::from_cookie(None).unwrap().0, None);
    assert_eq!(OptionalGithubOAuthUserId::from_cookie(Some("-3".into())).unwrap().0, Some(-3));
    assert!(OptionalGithubOAuthUserId::from_cookie(Some("3x".into())).is_err());
}

#[test]
fn type_check_keeps_or_refuses() {
    let c = pinespot::jwt::Claims { sub: USER, typ: TokenType::Refresh, exp: 10, iat: 5 };
    assert_eq!(require_token_type(c, TokenType::Refresh, AppError::InvalidTokenError).unwrap(), c);
    assert!(matches!(
        require_token_type(c, TokenType::Access, AppError::InvalidTokenError),
        Err(AppError::InvalidTokenError)
    ));
}

#[test]
fn token_read_back_keeps_expiry_and_issue_time() {
    let cfg = config();
    let token = create_token(&cfg, USER, TokenType::Refresh).unwrap();
    let claims = verify_token(&cfg, &token).unwrap();
    assert_eq!(claims.exp - claims.iat, 30 * 86400);
    assert_eq!(verify_token(&cfg, &token).unwrap(), claims);
}

#[test]
fn verification_errors_are_handed_on() {
    let cfg = config();
    assert!(matches!(access_claims(&cfg, Some("garbage".to_string())), Err(AppError::JsonWebTokenError(_))));
    assert!(matches!(email_verification_claims(&cfg, "garbage"), Err(AppError::JsonWebTokenError(_))));
    assert!(matches!(refresh_session(&cfg, None, Some("garbage".to_string())), Err(AppError::JsonWebTokenError(_))));
}

#[test]
fn tokens_issued_at_a_given_instant() {
    let cfg = config();
    let t = create_token_at(&cfg, USER, TokenType::Access, 1_000).unwrap();
    let c = verify_token_at(&cfg, &t, 1_000).unwrap();
    assert_eq!((c.sub, c.typ, c.iat, c.exp), (USER, TokenType::Access, 1_000, 1_900));
    assert_eq!(verify_token_at(&cfg, &t, 1_960).unwrap(), c);
    match verify_token_at(&cfg, &t, 1_961) {
        Err(AppError::JsonWebTokenError(m)) => assert_eq!(m, "ExpiredSignature"),
        other => panic!("unexpected {:?}", other.map(|c| c.exp)),
    }
    assert!(matches!(verify_token(&cfg, &t), Err(AppError::JsonWebTokenError(m)) if m == "ExpiredSignature"));
    let negative = create_token_at(&cfg, USER, TokenType::Access, -10_000).unwrap();
    assert!(matches!(verify_token_at(&cfg, &negative, 0), Err(AppError::JsonWebTokenError(_))));
    assert!(matches!(create_token_at(&cfg, USER, TokenType::Access, i64::MAX), Err(AppError::TokenCreationError)));
}

#[test]
fn renewal_at_an_instant_follows_the_threshold() {
    let cfg = config();
    let claims = pinespot::jwt::Claims { sub: USER, typ: TokenType::Refresh, exp: 100 * 86400, iat: 0 };
    let near = renew_session_at(&cfg, claims, true, 95 * 86400).unwrap();
    assert!(near.tokens.refresh_token.is_some());
    assert_eq!(near.cookie.unwrap().value, near.tokens.refresh_token.unwrap());
    let far = renew_session_at(&cfg, claims, true, 10 * 86400).unwrap();
    assert!(far.tokens.refresh_token.is_none() && far.cookie.is_none());
    let bearer = renew_session_at(&cfg, claims, false, 95 * 86400).unwrap();
    assert!(bearer.tokens.refresh_token.is_some() && bearer.cookie.is_none());
}
