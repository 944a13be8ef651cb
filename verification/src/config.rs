//! The settings that the service reads from its environment.

use vstd::prelude::*;

verus! {

/// Service settings. Every field mirrors one environment variable; the
/// optional ones may be left unset.
pub struct Config {
    /// The HMAC secret that signs every token.
    pub secret_key: Option<String>,
    /// How long an access token lives, in minutes.
    pub access_token_expire_in_minute: Option<i64>,
    /// How long a refresh token lives, in days; also the age of its cookie.
    pub refresh_token_expire_in_days: Option<i64>,
    /// How long an e-mail verification token lives, in hours.
    pub email_verification_token_expire_in_hours: Option<i64>,
    /// A refresh token closer than this many days to its expiry is renewed.
    pub refresh_token_renewal_threshold_days: Option<i64>,
    /// Whether cookies are marked `Secure` (unset means yes).
    pub cookie_secure: Option<bool>,
    /// The page that e-mail verification links point at.
    pub frontend_endpoint: String,
    /// The key of the transactional e-mail service.
    pub email_service_api_key: Option<String>,
    /// Where the vector database listens.
    pub qdrant_url: Option<String>,
    /// The key of the vector database.
    pub qdrant_api_key: Option<String>,
}

} // verus!
