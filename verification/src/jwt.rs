//! Signed tokens: their claims, their lifetimes, issuing them and reading
//! them back.

use vstd::prelude::*;

use crate::config::Config;
use crate::errors::AppError;
use crate::text::opt_text;
use crate::ids::{parse_uuid, uuid_from_text, uuid_text, uuid_to_string};

verus! {

/// What a token may be used for.
#[derive(Clone, Copy, Debug, PartialEq, Eq, Structural)]
pub enum TokenType {
    Access,
    Refresh,
    EmailVerification,
}

/// The claims that every token carries.
#[derive(Clone, Copy, Debug, PartialEq, Eq, Structural)]
pub struct Claims {
    /// The user the token speaks for.
    pub sub: u128,
    /// What the token may be used for.
    pub typ: TokenType,
    /// When the token expires, in seconds since the Unix epoch.
    pub exp: i64,
    /// When the token was issued, in seconds since the Unix epoch.
    pub iat: i64,
}

/// The claim fields found in the payload of a validly signed token, before
/// they are checked.
pub struct TokenFields {
    pub sub: Option<String>,
    pub typ: Option<String>,
    pub exp: Option<i64>,
    pub iat: Option<i64>,
}

/// The mathematical content of [`TokenFields`].
pub struct TokenFieldsView {
    pub sub: Option<Seq<char>>,
    pub typ: Option<Seq<char>>,
    pub exp: Option<i64>,
    pub iat: Option<i64>,
}

impl View for TokenFields {
    type V = TokenFieldsView;

    open spec fn view(&self) -> TokenFieldsView {
        TokenFieldsView { sub: opt_text(self.sub), typ: opt_text(self.typ), exp: self.exp, iat: self.iat }
    }
}

/// The name a token type has inside a token.
pub open spec fn token_type_text(t: TokenType) -> Seq<char> {
    match t {
        TokenType::Access => "access"@,
        TokenType::Refresh => "refresh"@,
        TokenType::EmailVerification => "email_verification"@,
    }
}

/// The token type that a name inside a token stands for.
pub open spec fn token_type_from_text(s: Seq<char>) -> Option<TokenType> {
    if s == "access"@ {
        Some(TokenType::Access)
    } else if s == "refresh"@ {
        Some(TokenType::Refresh)
    } else if s == "email_verification"@ {
        Some(TokenType::EmailVerification)
    } else {
        None
    }
}

/// Each token type reads back from its own name.
pub proof fn lemma_token_type_name_reads_back(t: TokenType)
    ensures
        token_type_from_text(token_type_text(t)) == Some(t),
{
    reveal_strlit("access");
    reveal_strlit("refresh");
    reveal_strlit("email_verification");
    assert("access"@.len() == 6);
    assert("refresh"@.len() == 7);
    assert("email_verification"@.len() == 18);
}

/// The name of a token type inside a token.
pub fn token_type_name(t: TokenType) -> (res: &'static str)
    ensures
        res@ == token_type_text(t),
        token_type_from_text(res@) == Some(t),
{
    proof {
        lemma_token_type_name_reads_back(t);
    }
    match t {
        TokenType::Access => "access",
        TokenType::Refresh => "refresh",
        TokenType::EmailVerification => "email_verification",
    }
}

/// The token type that a name inside a token stands for, if any.
pub fn parse_token_type(s: &str) -> (res: Option<TokenType>)
    ensures
        res == token_type_from_text(s@),
{
    if crate::text::same_text(s, "access") {
        Some(TokenType::Access)
    } else if crate::text::same_text(s, "refresh") {
        Some(TokenType::Refresh)
    } else if crate::text::same_text(s, "email_verification") {
        Some(TokenType::EmailVerification)
    } else {
        None
    }
}

/// The largest span, in seconds, that a time delta can hold.
pub const MAX_DELTA_SECONDS: i64 = 9_223_372_036_854_775;

/// The earliest instant, in seconds since the Unix epoch, that a UTC date
/// and time can hold.
pub const MIN_INSTANT_SECONDS: i64 = -8_334_601_315_200;

/// The latest instant, in seconds since the Unix epoch, that a UTC date and
/// time can hold.
pub const MAX_INSTANT_SECONDS: i64 = 8_210_266_876_799;

/// How long a token of the given type lives, in seconds, as the settings
/// say: access tokens in minutes, refresh tokens in days, e-mail
/// verification tokens in hours.
pub open spec fn lifetime_seconds(config: Config, typ: TokenType) -> Option<int> {
    match typ {
        TokenType::Access => match config.access_token_expire_in_minute {
            Some(m) => Some(m * 60),
            None => None,
        },
        TokenType::Refresh => match config.refresh_token_expire_in_days {
            Some(d) => Some(d * 86400),
            None => None,
        },
        TokenType::EmailVerification => match config.email_verification_token_expire_in_hours {
            Some(h) => Some(h * 3600),
            None => None,
        },
    }
}

/// The settings give the token type a lifetime that a time delta can hold.
pub open spec fn lifetime_is_set(config: Config, typ: TokenType) -> bool {
    lifetime_seconds(config, typ) matches Some(s) && -MAX_DELTA_SECONDS <= s <= MAX_DELTA_SECONDS
}

/// The claims of a token issued at `now`, if its expiry is an instant that a
/// UTC date and time can hold.
pub open spec fn claims_issued_at(config: Config, user_id: u128, typ: TokenType, now: int) -> Option<Claims> {
    let exp = now + lifetime_seconds(config, typ)->Some_0;
    if MIN_INSTANT_SECONDS <= exp <= MAX_INSTANT_SECONDS && i64::MIN <= now <= i64::MAX {
        Some(Claims { sub: user_id, typ, exp: exp as i64, iat: now as i64 })
    } else {
        None
    }
}

/// The lifetime of a token of the given type, in seconds.
pub fn token_lifetime(config: &Config, typ: TokenType) -> (res: i64)
    requires
        lifetime_is_set(*config, typ),
    ensures
        res == lifetime_seconds(*config, typ)->Some_0,
{
    match typ {
        TokenType::Access => {
            let m = config.access_token_expire_in_minute.unwrap();
            m * 60
        },
        TokenType::Refresh => {
            let d = config.refresh_token_expire_in_days.unwrap();
            d * 86400
        },
        TokenType::EmailVerification => {
            let h = config.email_verification_token_expire_in_hours.unwrap();
            h * 3600
        },
    }
}

/// The claims of a token issued at `now` (seconds since the Unix epoch):
/// issued now, expiring one lifetime later. `None` where the expiry falls
/// outside the instants that a UTC date and time can hold.
pub fn token_claims(config: &Config, user_id: u128, typ: TokenType, now: i64) -> (res: Option<Claims>)
    requires
        lifetime_is_set(*config, typ),
    ensures
        res == claims_issued_at(*config, user_id, typ, now as int),
{
    let life = token_lifetime(config, typ);
    let exp: i128 = now as i128 + life as i128;
    if exp < MIN_INSTANT_SECONDS as i128 || exp > MAX_INSTANT_SECONDS as i128 {
        None
    } else {
        Some(Claims { sub: user_id, typ, exp: exp as i64, iat: now })
    }
}

/// The text of an HS256 token that carries the given claims, as the token
/// codec writes it.
pub uninterp spec fn hs256_token(sub: Seq<char>, typ: Seq<char>, exp: i64, iat: i64, secret: Seq<u8>) -> Seq<char>;

/// The claim fields of a token that the token codec accepts under the
/// secret when it does not look at the clock: a well-formed token, signed
/// with HS256 under the secret, whose payload is a JSON object holding `exp`
/// as a whole number of at least zero and naming no audience. `None` where
/// it is not such a token. Whether the token has expired plays no part.
pub uninterp spec fn hs256_claims(token: Seq<char>, secret: Seq<u8>) -> Option<TokenFieldsView>;

/// `jsonwebtoken::encode` with an HS256 header, the secret as HMAC key, and a
/// payload of `sub`, `typ`, `exp` and `iat` in that order. A token it writes
/// is one that `jsonwebtoken::decode` with the same secret reads back with
/// the same fields (decoding re-signs the header and payload and parses the
/// payload that was written), as long as `exp` is not negative; the codec
/// requires `exp` as a number of at least zero, so a token written with a
/// negative one is never accepted. With an HMAC key of the HMAC algorithm
/// and a JSON object as payload writing always succeeds: the key family
/// matches the algorithm, both parts serialize, and HMAC signing takes a
/// key of any length.
#[verifier::external_body]
fn encode_hs256(sub: &str, typ: &str, exp: i64, iat: i64, secret: &[u8]) -> (res: Result<String, String>)
    ensures
        res is Ok,
        res matches Ok(t) ==> t@ == hs256_token(sub@, typ@, exp, iat, secret@),
        res matches Ok(t) ==> (exp >= 0 ==> hs256_claims(t@, secret@) == Some(
            TokenFieldsView { sub: Some(sub@), typ: Some(typ@), exp: Some(exp), iat: Some(iat) },
        )),
        res matches Ok(t) ==> (exp < 0 ==> hs256_claims(t@, secret@) is None),
{
    let mut claims = serde_json::Map::new();
    claims.insert("sub".to_string(), serde_json::Value::from(sub));
    claims.insert("typ".to_string(), serde_json::Value::from(typ));
    claims.insert("exp".to_string(), serde_json::Value::from(exp));
    claims.insert("iat".to_string(), serde_json::Value::from(iat));
    let header = jsonwebtoken::Header::new(jsonwebtoken::Algorithm::HS256);
    let key = jsonwebtoken::EncodingKey::from_secret(secret);
    jsonwebtoken::encode(&header, &claims, &key).map_err(|e| e.to_string())
}

/// `jsonwebtoken::decode` with the secret as HMAC key and the default
/// validation (HS256 only, `exp` required, no audience) except that the
/// expiry is not checked, so the clock is not read. It succeeds exactly on
/// the tokens that [`hs256_claims`] describes, and gives back the `sub`,
/// `typ`, `exp` and `iat` fields of the payload, each where it holds a
/// value of the right kind; otherwise it fails with the codec's description.
#[verifier::external_body]
fn decode_hs256(token: &str, secret: &[u8]) -> (res: Result<TokenFields, String>)
    ensures
        res matches Ok(f) ==> hs256_claims(token@, secret@) == Some(f@),
        res is Err <==> hs256_claims(token@, secret@) is None,
{
    let key = jsonwebtoken::DecodingKey::from_secret(secret);
    let mut validation = jsonwebtoken::Validation::default();
    validation.validate_exp = false;
    let data = jsonwebtoken::decode::<serde_json::Value>(token, &key, &validation)
        .map_err(|e| e.to_string())?;
    let c = data.claims;
    Ok(TokenFields {
        sub: c.get("sub").and_then(|v| v.as_str()).map(|s| s.to_string()),
        typ: c.get("typ").and_then(|v| v.as_str()).map(|s| s.to_string()),
        exp: c.get("exp").and_then(|v| v.as_i64()),
        iat: c.get("iat").and_then(|v| v.as_i64()),
    })
}

/// The description that the token codec gives of an expired token:
/// `ErrorKind::ExpiredSignature` displays as its name.
#[verifier::external_body]
fn expired_signature_message() -> (res: String)
    ensures
        res@ == "ExpiredSignature"@,
{
    jsonwebtoken::errors::Error::from(jsonwebtoken::errors::ErrorKind::ExpiredSignature).to_string()
}

/// `SystemTime::now().duration_since(UNIX_EPOCH)`: the whole seconds since
/// the Unix epoch by the system clock, or `None` where the clock reads
/// before the epoch. Nothing is stated of the value, which depends on the
/// clock.
#[verifier::external_body]
pub(crate) fn clock_seconds() -> (res: Option<u64>) {
    std::time::SystemTime::now().duration_since(std::time::UNIX_EPOCH).ok().map(|d| d.as_secs())
}

/// The claims that checked token fields stand for: every field present, the
/// subject a UUID and the type a known one.
pub open spec fn claims_from_fields(f: TokenFieldsView) -> Option<Claims> {
    match (f.sub, f.typ, f.exp, f.iat) {
        (Some(sub), Some(typ), Some(exp), Some(iat)) => match (uuid_from_text(sub), token_type_from_text(typ)) {
            (Some(id), Some(t)) => Some(Claims { sub: id, typ: t, exp, iat }),
            _ => None,
        },
        _ => None,
    }
}

/// The token was issued for `user_id` as a `typ` token at some instant
/// between the epoch and the latest instant a UTC date and time can hold.
pub open spec fn issued_for(token: Seq<char>, config: Config, user_id: u128, typ: TokenType) -> bool {
    exists|now: int| 0 <= now <= MAX_INSTANT_SECONDS && #[trigger] token_issued_at(token, config, user_id, typ, now)
}

/// The claims were read from the token: it is validly signed under `secret`
/// and its payload holds exactly these claims.
pub open spec fn read_from(token: Seq<char>, secret: Seq<u8>, claims: Claims) -> bool {
    hs256_claims(token, secret) matches Some(f) && claims_from_fields(f) == Some(claims)
}

/// How long after its expiry a token is still accepted, in seconds.
pub const EXPIRY_LEEWAY_SECONDS: i64 = 60;

/// A token expiring at `exp` has expired at `now`: its expiry lies more than
/// the leeway before `now`.
pub open spec fn expired_at(exp: i64, now: int) -> bool {
    exp < now - EXPIRY_LEEWAY_SECONDS
}

/// What reading a token with the secret gives at the instant `now`: the
/// claims it holds, unless it is not a token that the codec accepts, its
/// claims are missing or malformed, or it has expired, each a token error.
pub open spec fn verified_at(token: Seq<char>, secret: Seq<u8>, now: int, v: Result<Claims, AppError>) -> bool {
    match hs256_claims(token, secret) {
        None => v matches Err(e) && e is JsonWebTokenError,
        Some(f) => match claims_from_fields(f) {
            None => v matches Err(e) && e is JsonWebTokenError,
            Some(c) => if expired_at(c.exp, now) {
                v matches Err(e) && e matches AppError::JsonWebTokenError(m) && m@ == "ExpiredSignature"@
            } else {
                v == Ok::<Claims, AppError>(c)
            },
        },
    }
}

/// What reading a token with the secret may give: claims that the token
/// holds, a token error, or an internal error where the clock cannot be
/// read. A token that the codec does not accept, or whose claims are
/// missing or malformed, is always refused; a valid one may still be
/// refused as expired, which depends on the clock.
pub open spec fn possible_verification(token: Seq<char>, secret: Seq<u8>, v: Result<Claims, AppError>) -> bool {
    &&& v matches Ok(c) ==> read_from(token, secret, c)
    &&& v matches Err(e) ==> (e is JsonWebTokenError || e is InternalError)
    &&& hs256_claims(token, secret) is None ==> v is Err
    &&& (hs256_claims(token, secret) matches Some(f) && claims_from_fields(f) is None) ==> v is Err
}

/// The token was issued at `now` for the user as a `typ` token: it is the
/// token that carries the claims of that instant, signed with the
/// configured secret. Where its expiry is not negative it reads back as
/// exactly those claims; otherwise the codec never accepts it.
pub open spec fn token_issued_at(t: Seq<char>, config: Config, user_id: u128, typ: TokenType, now: int) -> bool {
    &&& claims_issued_at(config, user_id, typ, now) matches Some(c)
    &&& t == hs256_token(uuid_text(user_id), token_type_text(typ), c.exp, c.iat, secret_of(config))
    &&& c.exp >= 0 ==> read_from(t, secret_of(config), c)
    &&& c.exp < 0 ==> hs256_claims(t, secret_of(config)) is None
}

/// The secret that signs tokens, as bytes.
pub open spec fn secret_of(config: Config) -> Seq<u8> {
    vstd::utf8::encode_utf8(config.secret_key->Some_0@)
}

/// Issues a token of the given type for a user at the instant `now`
/// (seconds since the Unix epoch), signed with the configured secret:
/// issued at `now`, expiring one lifetime later.
///
/// The token holds exactly those claims: the user, the type, the expiry and
/// the issue time. It fails, with `TokenCreationError`, exactly where that
/// expiry is an instant that a UTC date and time cannot hold.
pub fn create_token_at(config: &Config, user_id: u128, typ: TokenType, now: i64) -> (res: Result<String, AppError>)
    requires
        config.secret_key is Some,
        lifetime_is_set(*config, typ),
    ensures
        claims_issued_at(*config, user_id, typ, now as int) is Some ==> (res matches Ok(t) && token_issued_at(
            t@,
            *config,
            user_id,
            typ,
            now as int,
        )),
        claims_issued_at(*config, user_id, typ, now as int) is None ==> (res matches Err(e)
            && e is TokenCreationError),
{
    let claims = match token_claims(config, user_id, typ, now) {
        Some(c) => c,
        None => return Err(AppError::TokenCreationError),
    };
    let sub = uuid_to_string(user_id);
    let secret = config.secret_key.as_ref().unwrap().as_str().as_bytes();
    match encode_hs256(sub.as_str(), token_type_name(typ), claims.exp, claims.iat, secret) {
        Ok(t) => {
            proof {
                lemma_token_type_name_reads_back(typ);
            }
            assert(claims.exp >= 0 ==> read_from(t@, secret_of(*config), claims));
            Ok(t)
        },
        Err(msg) => Err(AppError::JsonWebTokenError(msg)),
    }
}

/// Issues a token of the given type for a user, signed with the configured
/// secret: issued now by the system clock, expiring one lifetime later (see
/// [`create_token_at`]).
///
/// Fails with `TokenCreationError` where the clock reads before the epoch or
/// after the latest instant a UTC date and time can hold, or where the
/// expiry is an instant that a UTC date and time cannot hold.
pub fn create_token(config: &Config, user_id: u128, typ: TokenType) -> (res: Result<String, AppError>)
    requires
        config.secret_key is Some,
        lifetime_is_set(*config, typ),
    ensures
        res matches Ok(t) ==> issued_for(t@, *config, user_id, typ),
        res matches Err(e) ==> e is TokenCreationError,
{
    let now = match clock_seconds() {
        Some(t) => {
            if t > MAX_INSTANT_SECONDS as u64 {
                return Err(AppError::TokenCreationError);
            }
            t as i64
        },
        None => return Err(AppError::TokenCreationError),
    };
    create_token_at(config, user_id, typ, now)
}

/// Checks fields read from a token and turns them into claims.
pub fn claims_from_token_fields(fields: TokenFields) -> (res: Result<Claims, AppError>)
    ensures
        res matches Ok(c) ==> claims_from_fields(fields@) == Some(c),
        claims_from_fields(fields@) is None ==> (res matches Err(e) && e is JsonWebTokenError),
        claims_from_fields(fields@) matches Some(c) ==> res == Ok::<Claims, AppError>(c),
{
    let refused = "JSON error: the token's claims are missing or malformed";
    match (fields.sub, fields.typ, fields.exp, fields.iat) {
        (Some(sub), Some(typ), Some(exp), Some(iat)) => {
            match (parse_uuid(sub.as_str()), parse_token_type(typ.as_str())) {
                (Some(id), Some(t)) => Ok(Claims { sub: id, typ: t, exp, iat }),
                _ => Err(AppError::JsonWebTokenError(String::from_str(refused))),
            }
        },
        _ => Err(AppError::JsonWebTokenError(String::from_str(refused))),
    }
}

/// Reads, at the instant `now` (seconds since the Unix epoch), the claims of
/// a token signed with the configured secret.
///
/// Fails with `JsonWebTokenError` where the codec does not accept the token,
/// its claims are missing or malformed, or it expired more than the leeway
/// before `now`.
pub fn verify_token_at(config: &Config, token: &str, now: u64) -> (res: Result<Claims, AppError>)
    requires
        config.secret_key is Some,
    ensures
        verified_at(token@, secret_of(*config), now as int, res),
{
    let secret = config.secret_key.as_ref().unwrap().as_str().as_bytes();
    let fields = match decode_hs256(token, secret) {
        Ok(f) => f,
        Err(msg) => return Err(AppError::JsonWebTokenError(msg)),
    };
    let claims = claims_from_token_fields(fields)?;
    if (claims.exp as i128) < (now as i128) - (EXPIRY_LEEWAY_SECONDS as i128) {
        return Err(AppError::JsonWebTokenError(expired_signature_message()));
    }
    Ok(claims)
}

/// Reads the claims of a token signed with the configured secret, at the
/// instant the system clock gives (see [`verify_token_at`]).
///
/// Fails with `JsonWebTokenError` where the codec does not accept the
/// token, its claims are missing or malformed, or it has expired, and with
/// `InternalError` where the clock reads before the Unix epoch.
pub fn verify_token(config: &Config, token: &str) -> (res: Result<Claims, AppError>)
    requires
        config.secret_key is Some,
    ensures
        (exists|now: int| 0 <= now && #[trigger] verified_at(token@, secret_of(*config), now, res))
            || (res matches Err(e) && e is InternalError),
        possible_verification(token@, secret_of(*config), res),
{
    match clock_seconds() {
        Some(now) => {
            let res = verify_token_at(config, token, now);
            assert(verified_at(token@, secret_of(*config), now as int, res));
            res
        },
        None => Err(AppError::InternalError(String::from_str("the system clock reads before the Unix epoch"))),
    }
}

/// A token read back with the secret it was issued under names the user and
/// the type it was issued for.
pub proof fn lemma_token_reads_back(token: Seq<char>, config: Config, user_id: u128, typ: TokenType, claims: Claims)
    requires
        issued_for(token, config, user_id, typ),
        read_from(token, secret_of(config), claims),
    ensures
        claims.sub == user_id,
        claims.typ == typ,
{
    let now = choose|now: int| 0 <= now <= MAX_INSTANT_SECONDS && #[trigger] token_issued_at(token, config, user_id, typ, now);
    let c = claims_issued_at(config, user_id, typ, now)->Some_0;
    assert(c.exp >= 0);
}

/// A token fresh from [`create_token_at`] verifies, at any instant up to a
/// leeway past its expiry, as exactly the claims it was issued with.
pub proof fn lemma_fresh_token_verifies(
    token: Seq<char>,
    config: Config,
    user_id: u128,
    typ: TokenType,
    issued: int,
    now: int,
    v: Result<Claims, AppError>,
)
    requires
        token_issued_at(token, config, user_id, typ, issued),
        claims_issued_at(config, user_id, typ, issued)->Some_0.exp >= 0,
        now <= claims_issued_at(config, user_id, typ, issued)->Some_0.exp + EXPIRY_LEEWAY_SECONDS,
        verified_at(token, secret_of(config), now, v),
    ensures
        v == Ok::<Claims, AppError>(claims_issued_at(config, user_id, typ, issued)->Some_0),
{
}

/// Reading a token back gives exactly the claims it was written with: the
/// user, the type, the expiry and the issue time.
pub proof fn lemma_token_reads_back_as_written(token: Seq<char>, secret: Seq<u8>, written: Claims, read: Claims)
    requires
        read_from(token, secret, written),
        read_from(token, secret, read),
    ensures
        read == written,
{
}

} // verus!
