//! The service's error type: what each failure is called, which HTTP status
//! answers it, and the message that the response body carries.

use vstd::prelude::*;

verus! {

/// `400 Bad Request`.
pub const BAD_REQUEST: u16 = 400;
/// `401 Unauthorized`.
pub const UNAUTHORIZED: u16 = 401;
/// `404 Not Found`.
pub const NOT_FOUND: u16 = 404;
/// `422 Unprocessable Entity`.
pub const UNPROCESSABLE_ENTITY: u16 = 422;
/// `500 Internal Server Error`.
pub const INTERNAL_SERVER_ERROR: u16 = 500;

/// Every way a request can fail. Failures that come from another library
/// (the database driver, the HTTP client, the token codec, ...) carry that
/// library's own description of the failure as text.
#[derive(Debug)]
pub enum AppError {
    JwtError(String),
    DatabaseUrlNotSetError,
    DatabaseParsingError,
    DatabaseConnectionError,
    DatabaseFetchError { resource: String, id: String },
    DatabaseDeleteError { resource: String, id: String },
    SqlxError(String),
    QueryError(String),
    RedisUrlNotSetError,
    RedisError(String),
    MissingQdrantUrlError,
    MissingQdrantApiKeyError,
    QdrantError(String),
    VectorSearchError(String),
    SentenceEmbeddingsModelCreationError(String),
    ImageEmbeddingCreationError,
    TextEmbeddingCreationError,
    EmbeddingError,
    TchImageLoadingError(String),
    BcryptError(String),
    ObjectStorageError(String),
    Request(String),
    UnauthorizedError,
    UuidParseError(String),
    UrlParseError(String),
    InvalidUriError(String),
    OpenIdConnectDiscoveryError(String),
    OpenIdConnectConfigurationError(String),
    OptionError,
    ParseIntError(String),
    FromRequestPartsError(String),
    InvalidHeader { expected: String, found: String },
    WrongCredentials,
    InternalError(String),
    ExternalServiceError(String),
    MissingEmailServiceApiKeyError,
    MissingCredentials,
    MissingTlsCaError,
    MissingTlsKeyError,
    MissingTlsCertError,
    TonicError(String),
    TonicRustlsError(String),
    TokenCreationError,
    InvalidTokenError,
    MissingAuthorizationToken,
    MissingAccessToken,
    MissingRefreshToken,
    Unauthorized(String),
    MissingOAuthIdError,
    MissingGoogleOAuthSubError,
    MissingGithubOAuthIdError,
    InvalidAuthorizationTokenError,
    JsonWebTokenError(String),
    MissingSessionTokenError,
    InvalidSessionTokenError,
    SessionNotFoundError,
    ExpiredSessionTokenError,
    OAuthUserNotFoundError,
    OAuthUserIdExpiredError,
    JsonValidationError,
    InvalidFormData(String),
    MissingPkceCodeVerifierError,
    NonceNotFoundError,
    IdTokenNotFoundError,
    OpenIdConnectClaimsVerificationError(String),
    OpenIdConnectSigningError(String),
    OpenIdConnectSignatureVerificationError(String),
    OpenIdConnectHttpClientError(String),
    OpenIdConnectUserInfoError(String),
    ValidationError(String),
    ValidatorValidationError(String),
    ValidatorValidationErrors(String),
    RequestTokenError(String),
    NotFoundError(String),
    IoError(String),
    InvalidCaCertError(String),
    IncompatibleCaCertTypeError(String),
    InvalidClientCertError(String),
    IncompatibleClientCertTypeError(String),
    InvalidClientKeyError(String),
    IncompatibleClientKeyTypeError(String),
    InvalidPemError(String),
    RustlsError(String),
    InvalidImageFormatError(String),
    SerdejsonError(String),
}

/// The quoted, escaped form in which `{:?}` prints a string.
pub uninterp spec fn debug_quoted(s: Seq<char>) -> Seq<char>;

/// `<str as Debug>::fmt`: the string in double quotes, with quotes,
/// backslashes and non-printable characters escaped. The escaping is left to
/// the named result.
#[verifier::external_body]
fn debug_text(s: &str) -> (res: String)
    ensures
        res@ == debug_quoted(s@),
{
    format!("{:?}", s)
}

fn copied(e: &String) -> (res: String)
    ensures
        res@ == e@,
{
    e.clone()
}

fn prefixed(prefix: &str, e: &String) -> (res: String)
    ensures
        res@ == prefix@ + e@,
{
    let mut res = String::from_str(prefix);
    res.append(e.as_str());
    res
}

fn suffixed(e: &String, suffix: &str) -> (res: String)
    ensures
        res@ == e@ + suffix@,
{
    let mut res = String::from_str(e.as_str());
    res.append(suffix);
    res
}

fn resource_message(lead: &str, resource: &String, middle: &str, id: &String) -> (res: String)
    ensures
        res@ == lead@ + resource@ + middle@ + id@,
{
    let mut res = String::from_str(lead);
    res.append(resource.as_str());
    res.append(middle);
    res.append(id.as_str());
    res
}

fn header_message(expected: &String, found: &String) -> (res: String)
    ensures
        res@ == "invalid header (expected "@ + debug_quoted(expected@) + ", found "@
            + debug_quoted(found@) + ")"@,
{
    let mut res = String::from_str("invalid header (expected ");
    let e = debug_text(expected.as_str());
    res.append(e.as_str());
    res.append(", found ");
    let f = debug_text(found.as_str());
    res.append(f.as_str());
    res.append(")");
    res
}

/// The HTTP status with which the service answers an error.
pub open spec fn status_of(err: AppError) -> u16 {
    match err {
        AppError::JwtError(_) => INTERNAL_SERVER_ERROR,
        AppError::DatabaseUrlNotSetError => INTERNAL_SERVER_ERROR,
        AppError::DatabaseParsingError => INTERNAL_SERVER_ERROR,
        AppError::DatabaseConnectionError => INTERNAL_SERVER_ERROR,
        AppError::DatabaseFetchError { .. } => UNPROCESSABLE_ENTITY,
        AppError::DatabaseDeleteError { .. } => UNPROCESSABLE_ENTITY,
        AppError::SqlxError(_) => INTERNAL_SERVER_ERROR,
        AppError::QueryError(_) => INTERNAL_SERVER_ERROR,
        AppError::RedisUrlNotSetError => INTERNAL_SERVER_ERROR,
        AppError::RedisError(_) => INTERNAL_SERVER_ERROR,
        AppError::MissingQdrantUrlError => INTERNAL_SERVER_ERROR,
        AppError::MissingQdrantApiKeyError => INTERNAL_SERVER_ERROR,
        AppError::QdrantError(_) => INTERNAL_SERVER_ERROR,
        AppError::VectorSearchError(_) => INTERNAL_SERVER_ERROR,
        AppError::SentenceEmbeddingsModelCreationError(_) => INTERNAL_SERVER_ERROR,
        AppError::ImageEmbeddingCreationError => INTERNAL_SERVER_ERROR,
        AppError::TextEmbeddingCreationError => INTERNAL_SERVER_ERROR,
        AppError::EmbeddingError => INTERNAL_SERVER_ERROR,
        AppError::TchImageLoadingError(_) => INTERNAL_SERVER_ERROR,
        AppError::BcryptError(_) => INTERNAL_SERVER_ERROR,
        AppError::ObjectStorageError(_) => INTERNAL_SERVER_ERROR,
        AppError::Request(_) => INTERNAL_SERVER_ERROR,
        AppError::UnauthorizedError => UNAUTHORIZED,
        AppError::UuidParseError(_) => UNPROCESSABLE_ENTITY,
        AppError::UrlParseError(_) => UNPROCESSABLE_ENTITY,
        AppError::InvalidUriError(_) => UNPROCESSABLE_ENTITY,
        AppError::OpenIdConnectDiscoveryError(_) => INTERNAL_SERVER_ERROR,
        AppError::OpenIdConnectConfigurationError(_) => INTERNAL_SERVER_ERROR,
        AppError::OptionError => INTERNAL_SERVER_ERROR,
        AppError::ParseIntError(_) => INTERNAL_SERVER_ERROR,
        AppError::FromRequestPartsError(_) => INTERNAL_SERVER_ERROR,
        AppError::InvalidHeader { .. } => BAD_REQUEST,
        AppError::WrongCredentials => INTERNAL_SERVER_ERROR,
        AppError::InternalError(_) => INTERNAL_SERVER_ERROR,
        AppError::ExternalServiceError(_) => INTERNAL_SERVER_ERROR,
        AppError::MissingEmailServiceApiKeyError => INTERNAL_SERVER_ERROR,
        AppError::MissingCredentials => INTERNAL_SERVER_ERROR,
        AppError::MissingTlsCaError => INTERNAL_SERVER_ERROR,
        AppError::MissingTlsKeyError => INTERNAL_SERVER_ERROR,
        AppError::MissingTlsCertError => INTERNAL_SERVER_ERROR,
        AppError::TonicError(_) => INTERNAL_SERVER_ERROR,
        AppError::TonicRustlsError(_) => INTERNAL_SERVER_ERROR,
        AppError::TokenCreationError => INTERNAL_SERVER_ERROR,
        AppError::InvalidTokenError => INTERNAL_SERVER_ERROR,
        AppError::MissingAuthorizationToken => UNAUTHORIZED,
        AppError::MissingAccessToken => UNAUTHORIZED,
        AppError::MissingRefreshToken => UNAUTHORIZED,
        AppError::Unauthorized(_) => UNAUTHORIZED,
        AppError::MissingOAuthIdError => UNAUTHORIZED,
        AppError::MissingGoogleOAuthSubError => UNAUTHORIZED,
        AppError::MissingGithubOAuthIdError => UNAUTHORIZED,
        AppError::InvalidAuthorizationTokenError => UNAUTHORIZED,
        AppError::JsonWebTokenError(_) => UNAUTHORIZED,
        AppError::MissingSessionTokenError => UNAUTHORIZED,
        AppError::InvalidSessionTokenError => UNAUTHORIZED,
        AppError::SessionNotFoundError => UNAUTHORIZED,
        AppError::ExpiredSessionTokenError => UNAUTHORIZED,
        AppError::OAuthUserNotFoundError => UNAUTHORIZED,
        AppError::OAuthUserIdExpiredError => UNAUTHORIZED,
        AppError::JsonValidationError => UNPROCESSABLE_ENTITY,
        AppError::InvalidFormData(_) => UNPROCESSABLE_ENTITY,
        AppError::MissingPkceCodeVerifierError => UNPROCESSABLE_ENTITY,
        AppError::NonceNotFoundError => UNPROCESSABLE_ENTITY,
        AppError::IdTokenNotFoundError => UNPROCESSABLE_ENTITY,
        AppError::OpenIdConnectClaimsVerificationError(_) => INTERNAL_SERVER_ERROR,
        AppError::OpenIdConnectSigningError(_) => INTERNAL_SERVER_ERROR,
        AppError::OpenIdConnectSignatureVerificationError(_) => INTERNAL_SERVER_ERROR,
        AppError::OpenIdConnectHttpClientError(_) => INTERNAL_SERVER_ERROR,
        AppError::OpenIdConnectUserInfoError(_) => INTERNAL_SERVER_ERROR,
        AppError::ValidationError(_) => UNPROCESSABLE_ENTITY,
        AppError::ValidatorValidationError(_) => UNPROCESSABLE_ENTITY,
        AppError::ValidatorValidationErrors(_) => UNPROCESSABLE_ENTITY,
        AppError::RequestTokenError(_) => INTERNAL_SERVER_ERROR,
        AppError::NotFoundError(_) => NOT_FOUND,
        AppError::IoError(_) => INTERNAL_SERVER_ERROR,
        AppError::InvalidCaCertError(_) => INTERNAL_SERVER_ERROR,
        AppError::IncompatibleCaCertTypeError(_) => INTERNAL_SERVER_ERROR,
        AppError::InvalidClientCertError(_) => INTERNAL_SERVER_ERROR,
        AppError::IncompatibleClientCertTypeError(_) => INTERNAL_SERVER_ERROR,
        AppError::InvalidClientKeyError(_) => INTERNAL_SERVER_ERROR,
        AppError::IncompatibleClientKeyTypeError(_) => INTERNAL_SERVER_ERROR,
        AppError::InvalidPemError(_) => INTERNAL_SERVER_ERROR,
        AppError::RustlsError(_) => INTERNAL_SERVER_ERROR,
        AppError::InvalidImageFormatError(_) => UNPROCESSABLE_ENTITY,
        AppError::SerdejsonError(_) => UNPROCESSABLE_ENTITY,
    }
}

/// The text of the `error` field in the JSON body that answers an error.
pub open spec fn response_text(err: AppError) -> Seq<char> {
    match err {
        AppError::JwtError(e) => e@,
        AppError::DatabaseUrlNotSetError => "Database url not set error"@,
        AppError::DatabaseParsingError => "Database url parsing error"@,
        AppError::DatabaseConnectionError => "Database connection error"@,
        AppError::DatabaseFetchError { resource, id } => "Failed to fetch "@ + resource@ + " with ID "@ + id@,
        AppError::DatabaseDeleteError { resource, id } => "Failed to delete "@ + resource@ + " with ID "@ + id@,
        AppError::SqlxError(e) => e@,
        AppError::QueryError(e) => e@,
        AppError::RedisUrlNotSetError => "Redis url not set error"@,
        AppError::RedisError(e) => e@,
        AppError::MissingQdrantUrlError => "Missing qdrant url error"@,
        AppError::MissingQdrantApiKeyError => "Missing qdrant api key error"@,
        AppError::QdrantError(e) => e@,
        AppError::VectorSearchError(e) => "Vector search error, "@ + e@,
        AppError::SentenceEmbeddingsModelCreationError(e) => e@,
        AppError::ImageEmbeddingCreationError => "ImageEmbedding creation error"@,
        AppError::TextEmbeddingCreationError => "TextEmbedding creation error"@,
        AppError::EmbeddingError => "Embedding error"@,
        AppError::TchImageLoadingError(e) => e@,
        AppError::BcryptError(e) => e@,
        AppError::ObjectStorageError(e) => e@,
        AppError::Request(e) => e@,
        AppError::UnauthorizedError => "Unauthorized!"@,
        AppError::UuidParseError(e) => "Invalid uuid format, "@ + e@,
        AppError::UrlParseError(e) => "Url parse error, "@ + e@,
        AppError::InvalidUriError(e) => e@,
        AppError::OpenIdConnectDiscoveryError(e) => "Openidconnect discovery error, "@ + e@,
        AppError::OpenIdConnectConfigurationError(e) => "Openidconnect configuration error, "@ + e@,
        AppError::OptionError => "Attempted to get a non-none value but found none"@,
        AppError::ParseIntError(e) => e@,
        AppError::FromRequestPartsError(e) => e@,
        AppError::InvalidHeader { expected, found } => "invalid header (expected "@ + debug_quoted(expected@) + ", found "@ + debug_quoted(found@) + ")"@,
        AppError::WrongCredentials => "Wrong credentials"@,
        AppError::InternalError(e) => e@,
        AppError::ExternalServiceError(e) => e@,
        AppError::MissingEmailServiceApiKeyError => "Missing email service api key"@,
        AppError::MissingCredentials => "Missing credentials"@,
        AppError::MissingTlsCaError => "Missing tls ca error"@,
        AppError::MissingTlsKeyError => "Missing tls key error"@,
        AppError::MissingTlsCertError => "Missing tls cert error"@,
        AppError::TonicError(e) => e@,
        AppError::TonicRustlsError(e) => e@,
        AppError::TokenCreationError => "Token creation error"@,
        AppError::InvalidTokenError => "Invalid token"@,
        AppError::MissingAuthorizationToken => "Missing authorization token"@,
        AppError::MissingAccessToken => "Missing access token"@,
        AppError::MissingRefreshToken => "Missing refresh token"@,
        AppError::Unauthorized(e) => e@,
        AppError::MissingOAuthIdError => "Missing oauth id error"@,
        AppError::MissingGoogleOAuthSubError => "Missing google oauth sub error"@,
        AppError::MissingGithubOAuthIdError => "Missing github oauth id error"@,
        AppError::InvalidAuthorizationTokenError => "Invalid authorization token"@,
        AppError::JsonWebTokenError(e) => e@,
        AppError::MissingSessionTokenError => "Missing session token"@,
        AppError::InvalidSessionTokenError => "Invalid session token"@,
        AppError::SessionNotFoundError => "Session not found"@,
        AppError::ExpiredSessionTokenError => "Expired session token"@,
        AppError::OAuthUserNotFoundError => "OAuth user not found error"@,
        AppError::OAuthUserIdExpiredError => "OAuth user id expired error"@,
        AppError::JsonValidationError => "Json validation error"@,
        AppError::InvalidFormData(e) => e@,
        AppError::MissingPkceCodeVerifierError => "Missing pkce code verifier error"@,
        AppError::NonceNotFoundError => "Nonce not found error"@,
        AppError::IdTokenNotFoundError => "Id token not found error"@,
        AppError::OpenIdConnectClaimsVerificationError(e) => "Openidconnect claims verification error, "@ + e@,
        AppError::OpenIdConnectSigningError(e) => "Openidconnect signing error, "@ + e@,
        AppError::OpenIdConnectSignatureVerificationError(e) => "Openidconnect signature verification error, "@ + e@,
        AppError::OpenIdConnectHttpClientError(e) => "Openidconnect http client error, "@ + e@,
        AppError::OpenIdConnectUserInfoError(e) => "Openidconnect client info error, "@ + e@,
        AppError::ValidationError(e) => e@,
        AppError::ValidatorValidationError(e) => e@,
        AppError::ValidatorValidationErrors(e) => e@,
        AppError::RequestTokenError(e) => e@,
        AppError::NotFoundError(e) => e@,
        AppError::IoError(e) => e@,
        AppError::InvalidCaCertError(e) => "Invalid ca cert error, "@ + e@,
        AppError::IncompatibleCaCertTypeError(e) => " Incompatible ca cert type error, "@ + e@,
        AppError::InvalidClientCertError(e) => "Invalid client cert error, "@ + e@,
        AppError::IncompatibleClientCertTypeError(e) => " Incompatible client cert type error, "@ + e@,
        AppError::InvalidClientKeyError(e) => "Invalid client key error, "@ + e@,
        AppError::IncompatibleClientKeyTypeError(e) => " Incompatible client key type error, "@ + e@,
        AppError::InvalidPemError(e) => e@,
        AppError::RustlsError(e) => e@,
        AppError::InvalidImageFormatError(e) => e@,
        AppError::SerdejsonError(e) => e@,
    }
}

/// The one-line description of an error, as logs print it.
pub open spec fn description(err: AppError) -> Seq<char> {
    match err {
        AppError::JwtError(e) => e@,
        AppError::DatabaseUrlNotSetError => "Database url not set error"@,
        AppError::DatabaseParsingError => "Database url parsing error"@,
        AppError::DatabaseConnectionError => "Database connection error"@,
        AppError::DatabaseFetchError { resource, id } => "Failed to fetch "@ + resource@ + " with ID "@ + id@,
        AppError::DatabaseDeleteError { resource, id } => "Failed to delete "@ + resource@ + " with ID "@ + id@,
        AppError::SqlxError(e) => "Sqlx error: "@ + e@,
        AppError::QueryError(_) => "Query error"@,
        AppError::RedisUrlNotSetError => "Redis url not set error"@,
        AppError::RedisError(e) => "Redis error: "@ + e@,
        AppError::MissingQdrantUrlError => "Missing qdrant url error"@,
        AppError::MissingQdrantApiKeyError => "Missing qdrant api key error"@,
        AppError::QdrantError(e) => "Qdrant error: "@ + e@,
        AppError::VectorSearchError(e) => "Vector search error: "@ + e@,
        AppError::SentenceEmbeddingsModelCreationError(e) => "SentenceEmbeddingsModel creation error: "@ + e@,
        AppError::ImageEmbeddingCreationError => "ImageEmbedding creation error"@,
        AppError::TextEmbeddingCreationError => "TextEmbedding creation error"@,
        AppError::EmbeddingError => "Embedding error"@,
        AppError::TchImageLoadingError(e) => "Tch image loading error: "@ + e@,
        AppError::BcryptError(e) => "Bcrypt error: "@ + e@,
        AppError::ObjectStorageError(e) => "Object storage error: "@ + e@,
        AppError::Request(e) => "HTTP request error: "@ + e@,
        AppError::UnauthorizedError => "You're not authorized!"@,
        AppError::UuidParseError(e) => "Invalid uuid format: "@ + e@,
        AppError::UrlParseError(e) => "Url parse error: "@ + e@,
        AppError::InvalidUriError(e) => "Invalid uri error: "@ + e@,
        AppError::OpenIdConnectDiscoveryError(e) => "Openidconnect discovery error: "@ + e@,
        AppError::OpenIdConnectConfigurationError(e) => "Openidconnect configuration error: "@ + e@,
        AppError::OptionError => "Attempted to get a non-none value but found none"@,
        AppError::ParseIntError(e) => "Attempted to parse a number to an integer but errored out: "@ + e@,
        AppError::FromRequestPartsError(e) => "Encountered an error trying to convert an infallible value: "@ + e@,
        AppError::InvalidHeader { expected, found } => "invalid header (expected "@ + debug_quoted(expected@) + ", found "@ + debug_quoted(found@) + ")"@,
        AppError::WrongCredentials => "Wrong credentials"@,
        AppError::InternalError(e) => "Internal error, "@ + e@,
        AppError::ExternalServiceError(e) => "External service error, "@ + e@,
        AppError::MissingEmailServiceApiKeyError => "Missing email service api key error"@,
        AppError::MissingCredentials => "Missing credentials"@,
        AppError::MissingTlsCaError => "Missing tls ca error"@,
        AppError::MissingTlsKeyError => "Missing tls key error"@,
        AppError::MissingTlsCertError => "Missing tls cert error"@,
        AppError::TonicError(_) => "Tonic error"@,
        AppError::TonicRustlsError(_) => "Tonic rustls error"@,
        AppError::TokenCreationError => "Token creation error"@,
        AppError::InvalidTokenError => "Invalid token error"@,
        AppError::MissingAuthorizationToken => "Missing authorization token error"@,
        AppError::MissingAccessToken => "Missing acces token error"@,
        AppError::MissingRefreshToken => "Missing refresh token error"@,
        AppError::Unauthorized(e) => e@ + " token required"@,
        AppError::MissingOAuthIdError => "Missing oauth id error"@,
        AppError::MissingGoogleOAuthSubError => "Missing google oauth sub error"@,
        AppError::MissingGithubOAuthIdError => "Missing github oauth id error"@,
        AppError::InvalidAuthorizationTokenError => "Invalid authorization token error"@,
        AppError::JsonWebTokenError(_) => "jsonwebtoken error"@,
        AppError::MissingSessionTokenError => "Missing session token token error"@,
        AppError::InvalidSessionTokenError => "Invalid session token error"@,
        AppError::SessionNotFoundError => "Session not found error"@,
        AppError::ExpiredSessionTokenError => "Expired session token error"@,
        AppError::OAuthUserNotFoundError => "OAuth user not found error"@,
        AppError::OAuthUserIdExpiredError => "OAuth user id expired error"@,
        AppError::JsonValidationError => "Json validation error"@,
        AppError::InvalidFormData(e) => "Invalid form data, "@ + e@,
        AppError::MissingPkceCodeVerifierError => "Missing pkce code verifier error"@,
        AppError::NonceNotFoundError => "Nonce not found error"@,
        AppError::IdTokenNotFoundError => "Id token not found error"@,
        AppError::OpenIdConnectClaimsVerificationError(e) => "Openidconnect claims verification error, "@ + e@,
        AppError::OpenIdConnectSigningError(e) => "Openidconnect signing error, "@ + e@,
        AppError::OpenIdConnectSignatureVerificationError(e) => "Openidconnect signature verification error, "@ + e@,
        AppError::OpenIdConnectHttpClientError(e) => "Openidconnect http client error, "@ + e@,
        AppError::OpenIdConnectUserInfoError(e) => "Openidconnect user info error, "@ + e@,
        AppError::ValidationError(e) => "Validation error, "@ + e@,
        AppError::ValidatorValidationError(e) => "Validation error, "@ + e@,
        AppError::ValidatorValidationErrors(e) => "Validation errors, "@ + e@,
        AppError::RequestTokenError(e) => "Oauth request token error, "@ + e@,
        AppError::NotFoundError(e) => e@,
        AppError::IoError(e) => "IO error: "@ + e@,
        AppError::InvalidCaCertError(_) => "Invalid ca cert error"@,
        AppError::IncompatibleCaCertTypeError(_) => "Incompatible ca cert type error"@,
        AppError::InvalidClientCertError(_) => "Invalid client cert error"@,
        AppError::IncompatibleClientCertTypeError(_) => "Incompatible client cert type error"@,
        AppError::InvalidClientKeyError(_) => "Invalid client key error"@,
        AppError::IncompatibleClientKeyTypeError(_) => "Incompatible client key type error"@,
        AppError::InvalidPemError(_) => "Invalid PEM error"@,
        AppError::RustlsError(_) => "Rustls error"@,
        AppError::InvalidImageFormatError(_) => "Invalid image format error"@,
        AppError::SerdejsonError(_) => "Serde json error"@,
    }
}

/// Whether a number is one of the statuses that the service answers errors with.
pub open spec fn is_error_status(code: u16) -> bool {
    code == BAD_REQUEST || code == UNAUTHORIZED || code == NOT_FOUND
        || code == UNPROCESSABLE_ENTITY || code == INTERNAL_SERVER_ERROR
}

impl AppError {
    /// The HTTP status of the response that answers this error.
    pub fn status_code(&self) -> (code: u16)
        ensures
            code == status_of(*self),
            is_error_status(code),
            code == 401 <==> is_authorization_refusal(*self),
    {
        match self {
            AppError::JwtError(_) => INTERNAL_SERVER_ERROR,
            AppError::DatabaseUrlNotSetError => INTERNAL_SERVER_ERROR,
            AppError::DatabaseParsingError => INTERNAL_SERVER_ERROR,
            AppError::DatabaseConnectionError => INTERNAL_SERVER_ERROR,
            AppError::DatabaseFetchError { .. } => UNPROCESSABLE_ENTITY,
            AppError::DatabaseDeleteError { .. } => UNPROCESSABLE_ENTITY,
            AppError::SqlxError(_) => INTERNAL_SERVER_ERROR,
            AppError::QueryError(_) => INTERNAL_SERVER_ERROR,
            AppError::RedisUrlNotSetError => INTERNAL_SERVER_ERROR,
            AppError::RedisError(_) => INTERNAL_SERVER_ERROR,
            AppError::MissingQdrantUrlError => INTERNAL_SERVER_ERROR,
            AppError::MissingQdrantApiKeyError => INTERNAL_SERVER_ERROR,
            AppError::QdrantError(_) => INTERNAL_SERVER_ERROR,
            AppError::VectorSearchError(_) => INTERNAL_SERVER_ERROR,
            AppError::SentenceEmbeddingsModelCreationError(_) => INTERNAL_SERVER_ERROR,
            AppError::ImageEmbeddingCreationError => INTERNAL_SERVER_ERROR,
            AppError::TextEmbeddingCreationError => INTERNAL_SERVER_ERROR,
            AppError::EmbeddingError => INTERNAL_SERVER_ERROR,
            AppError::TchImageLoadingError(_) => INTERNAL_SERVER_ERROR,
            AppError::BcryptError(_) => INTERNAL_SERVER_ERROR,
            AppError::ObjectStorageError(_) => INTERNAL_SERVER_ERROR,
            AppError::Request(_) => INTERNAL_SERVER_ERROR,
            AppError::UnauthorizedError => UNAUTHORIZED,
            AppError::UuidParseError(_) => UNPROCESSABLE_ENTITY,
            AppError::UrlParseError(_) => UNPROCESSABLE_ENTITY,
            AppError::InvalidUriError(_) => UNPROCESSABLE_ENTITY,
            AppError::OpenIdConnectDiscoveryError(_) => INTERNAL_SERVER_ERROR,
            AppError::OpenIdConnectConfigurationError(_) => INTERNAL_SERVER_ERROR,
            AppError::OptionError => INTERNAL_SERVER_ERROR,
            AppError::ParseIntError(_) => INTERNAL_SERVER_ERROR,
            AppError::FromRequestPartsError(_) => INTERNAL_SERVER_ERROR,
            AppError::InvalidHeader { .. } => BAD_REQUEST,
            AppError::WrongCredentials => INTERNAL_SERVER_ERROR,
            AppError::InternalError(_) => INTERNAL_SERVER_ERROR,
            AppError::ExternalServiceError(_) => INTERNAL_SERVER_ERROR,
            AppError::MissingEmailServiceApiKeyError => INTERNAL_SERVER_ERROR,
            AppError::MissingCredentials => INTERNAL_SERVER_ERROR,
            AppError::MissingTlsCaError => INTERNAL_SERVER_ERROR,
            AppError::MissingTlsKeyError => INTERNAL_SERVER_ERROR,
            AppError::MissingTlsCertError => INTERNAL_SERVER_ERROR,
            AppError::TonicError(_) => INTERNAL_SERVER_ERROR,
            AppError::TonicRustlsError(_) => INTERNAL_SERVER_ERROR,
            AppError::TokenCreationError => INTERNAL_SERVER_ERROR,
            AppError::InvalidTokenError => INTERNAL_SERVER_ERROR,
            AppError::MissingAuthorizationToken => UNAUTHORIZED,
            AppError::MissingAccessToken => UNAUTHORIZED,
            AppError::MissingRefreshToken => UNAUTHORIZED,
            AppError::Unauthorized(_) => UNAUTHORIZED,
            AppError::MissingOAuthIdError => UNAUTHORIZED,
            AppError::MissingGoogleOAuthSubError => UNAUTHORIZED,
            AppError::MissingGithubOAuthIdError => UNAUTHORIZED,
            AppError::InvalidAuthorizationTokenError => UNAUTHORIZED,
            AppError::JsonWebTokenError(_) => UNAUTHORIZED,
            AppError::MissingSessionTokenError => UNAUTHORIZED,
            AppError::InvalidSessionTokenError => UNAUTHORIZED,
            AppError::SessionNotFoundError => UNAUTHORIZED,
            AppError::ExpiredSessionTokenError => UNAUTHORIZED,
            AppError::OAuthUserNotFoundError => UNAUTHORIZED,
            AppError::OAuthUserIdExpiredError => UNAUTHORIZED,
            AppError::JsonValidationError => UNPROCESSABLE_ENTITY,
            AppError::InvalidFormData(_) => UNPROCESSABLE_ENTITY,
            AppError::MissingPkceCodeVerifierError => UNPROCESSABLE_ENTITY,
            AppError::NonceNotFoundError => UNPROCESSABLE_ENTITY,
            AppError::IdTokenNotFoundError => UNPROCESSABLE_ENTITY,
            AppError::OpenIdConnectClaimsVerificationError(_) => INTERNAL_SERVER_ERROR,
            AppError::OpenIdConnectSigningError(_) => INTERNAL_SERVER_ERROR,
            AppError::OpenIdConnectSignatureVerificationError(_) => INTERNAL_SERVER_ERROR,
            AppError::OpenIdConnectHttpClientError(_) => INTERNAL_SERVER_ERROR,
            AppError::OpenIdConnectUserInfoError(_) => INTERNAL_SERVER_ERROR,
            AppError::ValidationError(_) => UNPROCESSABLE_ENTITY,
            AppError::ValidatorValidationError(_) => UNPROCESSABLE_ENTITY,
            AppError::ValidatorValidationErrors(_) => UNPROCESSABLE_ENTITY,
            AppError::RequestTokenError(_) => INTERNAL_SERVER_ERROR,
            AppError::NotFoundError(_) => NOT_FOUND,
            AppError::IoError(_) => INTERNAL_SERVER_ERROR,
            AppError::InvalidCaCertError(_) => INTERNAL_SERVER_ERROR,
            AppError::IncompatibleCaCertTypeError(_) => INTERNAL_SERVER_ERROR,
            AppError::InvalidClientCertError(_) => INTERNAL_SERVER_ERROR,
            AppError::IncompatibleClientCertTypeError(_) => INTERNAL_SERVER_ERROR,
            AppError::InvalidClientKeyError(_) => INTERNAL_SERVER_ERROR,
            AppError::IncompatibleClientKeyTypeError(_) => INTERNAL_SERVER_ERROR,
            AppError::InvalidPemError(_) => INTERNAL_SERVER_ERROR,
            AppError::RustlsError(_) => INTERNAL_SERVER_ERROR,
            AppError::InvalidImageFormatError(_) => UNPROCESSABLE_ENTITY,
            AppError::SerdejsonError(_) => UNPROCESSABLE_ENTITY,
        }
    }

    /// The message that the response body carries under `error`.
    pub fn response_message(&self) -> (msg: String)
        ensures
            msg@ == response_text(*self),
    {
        match self {
            AppError::JwtError(e) => copied(e),
            AppError::DatabaseUrlNotSetError => String::from_str("Database url not set error"),
            AppError::DatabaseParsingError => String::from_str("Database url parsing error"),
            AppError::DatabaseConnectionError => String::from_str("Database connection error"),
            AppError::DatabaseFetchError { resource, id } => resource_message("Failed to fetch ", resource, " with ID ", id),
            AppError::DatabaseDeleteError { resource, id } => resource_message("Failed to delete ", resource, " with ID ", id),
            AppError::SqlxError(e) => copied(e),
            AppError::QueryError(e) => copied(e),
            AppError::RedisUrlNotSetError => String::from_str("Redis url not set error"),
            AppError::RedisError(e) => copied(e),
            AppError::MissingQdrantUrlError => String::from_str("Missing qdrant url error"),
            AppError::MissingQdrantApiKeyError => String::from_str("Missing qdrant api key error"),
            AppError::QdrantError(e) => copied(e),
            AppError::VectorSearchError(e) => prefixed("Vector search error, ", e),
            AppError::SentenceEmbeddingsModelCreationError(e) => copied(e),
            AppError::ImageEmbeddingCreationError => String::from_str("ImageEmbedding creation error"),
            AppError::TextEmbeddingCreationError => String::from_str("TextEmbedding creation error"),
            AppError::EmbeddingError => String::from_str("Embedding error"),
            AppError::TchImageLoadingError(e) => copied(e),
            AppError::BcryptError(e) => copied(e),
            AppError::ObjectStorageError(e) => copied(e),
            AppError::Request(e) => copied(e),
            AppError::UnauthorizedError => String::from_str("Unauthorized!"),
            AppError::UuidParseError(e) => prefixed("Invalid uuid format, ", e),
            AppError::UrlParseError(e) => prefixed("Url parse error, ", e),
            AppError::InvalidUriError(e) => copied(e),
            AppError::OpenIdConnectDiscoveryError(e) => prefixed("Openidconnect discovery error, ", e),
            AppError::OpenIdConnectConfigurationError(e) => prefixed("Openidconnect configuration error, ", e),
            AppError::OptionError => String::from_str("Attempted to get a non-none value but found none"),
            AppError::ParseIntError(e) => copied(e),
            AppError::FromRequestPartsError(e) => copied(e),
            AppError::InvalidHeader { expected, found } => header_message(expected, found),
            AppError::WrongCredentials => String::from_str("Wrong credentials"),
            AppError::InternalError(e) => copied(e),
            AppError::ExternalServiceError(e) => copied(e),
            AppError::MissingEmailServiceApiKeyError => String::from_str("Missing email service api key"),
            AppError::MissingCredentials => String::from_str("Missing credentials"),
            AppError::MissingTlsCaError => String::from_str("Missing tls ca error"),
            AppError::MissingTlsKeyError => String::from_str("Missing tls key error"),
            AppError::MissingTlsCertError => String::from_str("Missing tls cert error"),
            AppError::TonicError(e) => copied(e),
            AppError::TonicRustlsError(e) => copied(e),
            AppError::TokenCreationError => String::from_str("Token creation error"),
            AppError::InvalidTokenError => String::from_str("Invalid token"),
            AppError::MissingAuthorizationToken => String::from_str("Missing authorization token"),
            AppError::MissingAccessToken => String::from_str("Missing access token"),
            AppError::MissingRefreshToken => String::from_str("Missing refresh token"),
            AppError::Unauthorized(e) => copied(e),
            AppError::MissingOAuthIdError => String::from_str("Missing oauth id error"),
            AppError::MissingGoogleOAuthSubError => String::from_str("Missing google oauth sub error"),
            AppError::MissingGithubOAuthIdError => String::from_str("Missing github oauth id error"),
            AppError::InvalidAuthorizationTokenError => String::from_str("Invalid authorization token"),
            AppError::JsonWebTokenError(e) => copied(e),
            AppError::MissingSessionTokenError => String::from_str("Missing session token"),
            AppError::InvalidSessionTokenError => String::from_str("Invalid session token"),
            AppError::SessionNotFoundError => String::from_str("Session not found"),
            AppError::ExpiredSessionTokenError => String::from_str("Expired session token"),
            AppError::OAuthUserNotFoundError => String::from_str("OAuth user not found error"),
            AppError::OAuthUserIdExpiredError => String::from_str("OAuth user id expired error"),
            AppError::JsonValidationError => String::from_str("Json validation error"),
            AppError::InvalidFormData(e) => copied(e),
            AppError::MissingPkceCodeVerifierError => String::from_str("Missing pkce code verifier error"),
            AppError::NonceNotFoundError => String::from_str("Nonce not found error"),
            AppError::IdTokenNotFoundError => String::from_str("Id token not found error"),
            AppError::OpenIdConnectClaimsVerificationError(e) => prefixed("Openidconnect claims verification error, ", e),
            AppError::OpenIdConnectSigningError(e) => prefixed("Openidconnect signing error, ", e),
            AppError::OpenIdConnectSignatureVerificationError(e) => prefixed("Openidconnect signature verification error, ", e),
            AppError::OpenIdConnectHttpClientError(e) => prefixed("Openidconnect http client error, ", e),
            AppError::OpenIdConnectUserInfoError(e) => prefixed("Openidconnect client info error, ", e),
            AppError::ValidationError(e) => copied(e),
            AppError::ValidatorValidationError(e) => copied(e),
            AppError::ValidatorValidationErrors(e) => copied(e),
            AppError::RequestTokenError(e) => copied(e),
            AppError::NotFoundError(e) => copied(e),
            AppError::IoError(e) => copied(e),
            AppError::InvalidCaCertError(e) => prefixed("Invalid ca cert error, ", e),
            AppError::IncompatibleCaCertTypeError(e) => prefixed(" Incompatible ca cert type error, ", e),
            AppError::InvalidClientCertError(e) => prefixed("Invalid client cert error, ", e),
            AppError::IncompatibleClientCertTypeError(e) => prefixed(" Incompatible client cert type error, ", e),
            AppError::InvalidClientKeyError(e) => prefixed("Invalid client key error, ", e),
            AppError::IncompatibleClientKeyTypeError(e) => prefixed(" Incompatible client key type error, ", e),
            AppError::InvalidPemError(e) => copied(e),
            AppError::RustlsError(e) => copied(e),
            AppError::InvalidImageFormatError(e) => copied(e),
            AppError::SerdejsonError(e) => copied(e),
        }
    }

    /// Both parts of the response that answers this error: its status and the
    /// message of its JSON body.
    pub fn into_response(self) -> (res: (u16, String))
        ensures
            res.0 == status_of(self),
            res.0 == 401 <==> is_authorization_refusal(self),
            res.1@ == response_text(self),
            is_error_status(res.0),
    {
        (self.status_code(), self.response_message())
    }

    /// The description of this error, as `Display` would print it.
    pub fn to_display_string(&self) -> (msg: String)
        ensures
            msg@ == description(*self),
    {
        match self {
            AppError::JwtError(e) => copied(e),
            AppError::DatabaseUrlNotSetError => String::from_str("Database url not set error"),
            AppError::DatabaseParsingError => String::from_str("Database url parsing error"),
            AppError::DatabaseConnectionError => String::from_str("Database connection error"),
            AppError::DatabaseFetchError { resource, id } => resource_message("Failed to fetch ", resource, " with ID ", id),
            AppError::DatabaseDeleteError { resource, id } => resource_message("Failed to delete ", resource, " with ID ", id),
            AppError::SqlxError(e) => prefixed("Sqlx error: ", e),
            AppError::QueryError(_) => String::from_str("Query error"),
            AppError::RedisUrlNotSetError => String::from_str("Redis url not set error"),
            AppError::RedisError(e) => prefixed("Redis error: ", e),
            AppError::MissingQdrantUrlError => String::from_str("Missing qdrant url error"),
            AppError::MissingQdrantApiKeyError => String::from_str("Missing qdrant api key error"),
            AppError::QdrantError(e) => prefixed("Qdrant error: ", e),
            AppError::VectorSearchError(e) => prefixed("Vector search error: ", e),
            AppError::SentenceEmbeddingsModelCreationError(e) => prefixed("SentenceEmbeddingsModel creation error: ", e),
            AppError::ImageEmbeddingCreationError => String::from_str("ImageEmbedding creation error"),
            AppError::TextEmbeddingCreationError => String::from_str("TextEmbedding creation error"),
            AppError::EmbeddingError => String::from_str("Embedding error"),
            AppError::TchImageLoadingError(e) => prefixed("Tch image loading error: ", e),
            AppError::BcryptError(e) => prefixed("Bcrypt error: ", e),
            AppError::ObjectStorageError(e) => prefixed("Object storage error: ", e),
            AppError::Request(e) => prefixed("HTTP request error: ", e),
            AppError::UnauthorizedError => String::from_str("You're not authorized!"),
            AppError::UuidParseError(e) => prefixed("Invalid uuid format: ", e),
            AppError::UrlParseError(e) => prefixed("Url parse error: ", e),
            AppError::InvalidUriError(e) => prefixed("Invalid uri error: ", e),
            AppError::OpenIdConnectDiscoveryError(e) => prefixed("Openidconnect discovery error: ", e),
            AppError::OpenIdConnectConfigurationError(e) => prefixed("Openidconnect configuration error: ", e),
            AppError::OptionError => String::from_str("Attempted to get a non-none value but found none"),
            AppError::ParseIntError(e) => prefixed("Attempted to parse a number to an integer but errored out: ", e),
            AppError::FromRequestPartsError(e) => prefixed("Encountered an error trying to convert an infallible value: ", e),
            AppError::InvalidHeader { expected, found } => header_message(expected, found),
            AppError::WrongCredentials => String::from_str("Wrong credentials"),
            AppError::InternalError(e) => prefixed("Internal error, ", e),
            AppError::ExternalServiceError(e) => prefixed("External service error, ", e),
            AppError::MissingEmailServiceApiKeyError => String::from_str("Missing email service api key error"),
            AppError::MissingCredentials => String::from_str("Missing credentials"),
            AppError::MissingTlsCaError => String::from_str("Missing tls ca error"),
            AppError::MissingTlsKeyError => String::from_str("Missing tls key error"),
            AppError::MissingTlsCertError => String::from_str("Missing tls cert error"),
            AppError::TonicError(_) => String::from_str("Tonic error"),
            AppError::TonicRustlsError(_) => String::from_str("Tonic rustls error"),
            AppError::TokenCreationError => String::from_str("Token creation error"),
            AppError::InvalidTokenError => String::from_str("Invalid token error"),
            AppError::MissingAuthorizationToken => String::from_str("Missing authorization token error"),
            AppError::MissingAccessToken => String::from_str("Missing acces token error"),
            AppError::MissingRefreshToken => String::from_str("Missing refresh token error"),
            AppError::Unauthorized(e) => suffixed(e, " token required"),
            AppError::MissingOAuthIdError => String::from_str("Missing oauth id error"),
            AppError::MissingGoogleOAuthSubError => String::from_str("Missing google oauth sub error"),
            AppError::MissingGithubOAuthIdError => String::from_str("Missing github oauth id error"),
            AppError::InvalidAuthorizationTokenError => String::from_str("Invalid authorization token error"),
            AppError::JsonWebTokenError(_) => String::from_str("jsonwebtoken error"),
            AppError::MissingSessionTokenError => String::from_str("Missing session token token error"),
            AppError::InvalidSessionTokenError => String::from_str("Invalid session token error"),
            AppError::SessionNotFoundError => String::from_str("Session not found error"),
            AppError::ExpiredSessionTokenError => String::from_str("Expired session token error"),
            AppError::OAuthUserNotFoundError => String::from_str("OAuth user not found error"),
            AppError::OAuthUserIdExpiredError => String::from_str("OAuth user id expired error"),
            AppError::JsonValidationError => String::from_str("Json validation error"),
            AppError::InvalidFormData(e) => prefixed("Invalid form data, ", e),
            AppError::MissingPkceCodeVerifierError => String::from_str("Missing pkce code verifier error"),
            AppError::NonceNotFoundError => String::from_str("Nonce not found error"),
            AppError::IdTokenNotFoundError => String::from_str("Id token not found error"),
            AppError::OpenIdConnectClaimsVerificationError(e) => prefixed("Openidconnect claims verification error, ", e),
            AppError::OpenIdConnectSigningError(e) => prefixed("Openidconnect signing error, ", e),
            AppError::OpenIdConnectSignatureVerificationError(e) => prefixed("Openidconnect signature verification error, ", e),
            AppError::OpenIdConnectHttpClientError(e) => prefixed("Openidconnect http client error, ", e),
            AppError::OpenIdConnectUserInfoError(e) => prefixed("Openidconnect user info error, ", e),
            AppError::ValidationError(e) => prefixed("Validation error, ", e),
            AppError::ValidatorValidationError(e) => prefixed("Validation error, ", e),
            AppError::ValidatorValidationErrors(e) => prefixed("Validation errors, ", e),
            AppError::RequestTokenError(e) => prefixed("Oauth request token error, ", e),
            AppError::NotFoundError(e) => copied(e),
            AppError::IoError(e) => prefixed("IO error: ", e),
            AppError::InvalidCaCertError(_) => String::from_str("Invalid ca cert error"),
            AppError::IncompatibleCaCertTypeError(_) => String::from_str("Incompatible ca cert type error"),
            AppError::InvalidClientCertError(_) => String::from_str("Invalid client cert error"),
            AppError::IncompatibleClientCertTypeError(_) => String::from_str("Incompatible client cert type error"),
            AppError::InvalidClientKeyError(_) => String::from_str("Invalid client key error"),
            AppError::IncompatibleClientKeyTypeError(_) => String::from_str("Incompatible client key type error"),
            AppError::InvalidPemError(_) => String::from_str("Invalid PEM error"),
            AppError::RustlsError(_) => String::from_str("Rustls error"),
            AppError::InvalidImageFormatError(_) => String::from_str("Invalid image format error"),
            AppError::SerdejsonError(_) => String::from_str("Serde json error"),
        }
    }
}

/// The error refuses a request for want of authorization: a missing,
/// invalid or expired token, session or sign-in, or a refusal to act for
/// the one who asks.
pub open spec fn is_authorization_refusal(err: AppError) -> bool {
    ||| err is UnauthorizedError
    ||| err is Unauthorized
    ||| err is MissingAuthorizationToken
    ||| err is MissingAccessToken
    ||| err is MissingRefreshToken
    ||| err is InvalidAuthorizationTokenError
    ||| err is JsonWebTokenError
    ||| err is MissingOAuthIdError
    ||| err is MissingGoogleOAuthSubError
    ||| err is MissingGithubOAuthIdError
    ||| err is MissingSessionTokenError
    ||| err is InvalidSessionTokenError
    ||| err is SessionNotFoundError
    ||| err is ExpiredSessionTokenError
    ||| err is OAuthUserNotFoundError
    ||| err is OAuthUserIdExpiredError
}

/// Every refusal for want of authorization, whatever its message, is
/// answered `401 Unauthorized`, and no other error is.
pub proof fn lemma_authorization_refusals_answer_401(err: AppError)
    ensures
        status_of(err) == 401 <==> is_authorization_refusal(err),
{
}

} // verus!
