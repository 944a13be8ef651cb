use pinespot::errors::AppError;
use pinespot::text::{deserialize_bool_from_any, i64_to_text, parse_i64, same_text, u64_to_text};

#[test]
fn parse_i64_reads_signed_decimals() {
    assert_eq!(parse_i64("0"), Some(0));
    assert_eq!(parse_i64("42"), Some(42));
    assert_eq!(parse_i64("-17"), Some(-17));
    assert_eq!(parse_i64("+5"), Some(5));
    assert_eq!(parse_i64("9223372036854775807"), Some(i64::MAX));
    assert_eq!(parse_i64("-9223372036854775808"), Some(i64::MIN));
}

#[test]
fn parse_i64_refuses_what_str_parse_refuses() {
    for bad in ["", "-", "+", "12a", " 1", "1.5", "9223372036854775808", "-9223372036854775809", "--1"] {
        assert_eq!(parse_i64(bad), None, "{bad}");
        assert_eq!(parse_i64(bad), bad.parse::<i64>().ok(), "{bad}");
    }
}

#[test]
fn integer_text_matches_to_string() {
    for n in [0i64, 7, -7, 10, 1234567890, i64::MAX, i64::MIN] {
        assert_eq!(i64_to_text(n), n.to_string());
        assert_eq!(parse_i64(&i64_to_text(n)), Some(n));
    }
    assert_eq!(u64_to_text(u64::MAX), u64::MAX.to_string());
    assert_eq!(u64_to_text(250000), "250000");
}

#[test]
fn query_flags_accept_four_spellings() {
    assert_eq!(deserialize_bool_from_any("true"), Ok(Some(true)));
    assert_eq!(deserialize_bool_from_any("1"), Ok(Some(true)));
    assert_eq!(deserialize_bool_from_any("false"), Ok(Some(false)));
    assert_eq!(deserialize_bool_from_any("0"), Ok(Some(false)));
    assert_eq!(
        deserialize_bool_from_any("yes"),
        Err("expected true/false or 1/0".to_string())
    );
    assert_eq!(
        deserialize_bool_from_any("TRUE"),
        Err("expected true/false or 1/0".to_string())
    );
}

#[test]
fn text_helpers() {
    assert!(same_text("abc", "abc"));
    assert!(!same_text("abc", "abd"));
    assert!(!same_text("abc", "ab"));
}

#[test]
fn error_statuses_follow_their_kind() {
    assert_eq!(AppError::MissingAccessToken.status_code(), 401);
    assert_eq!(AppError::NotFoundError("x".into()).status_code(), 404);
    assert_eq!(AppError::ValidationError("x".into()).status_code(), 422);
    assert_eq!(AppError::InvalidHeader { expected: "a".into(), found: "b".into() }.status_code(), 400);
    assert_eq!(AppError::SqlxError("boom".into()).status_code(), 500);
    assert_eq!(AppError::JsonWebTokenError("ExpiredSignature".into()).status_code(), 401);
    assert_eq!(AppError::SerdejsonError("eof".into()).status_code(), 422);
    assert_eq!(AppError::UuidParseError("bad".into()).status_code(), 422);
}

#[test]
fn error_response_messages() {
    assert_eq!(AppError::UnauthorizedError.response_message(), "Unauthorized!");
    assert_eq!(
        AppError::VectorSearchError("timeout".into()).response_message(),
        "Vector search error, timeout"
    );
    assert_eq!(
        AppError::DatabaseFetchError { resource: "Model".into(), id: "42".into() }.response_message(),
        "Failed to fetch Model with ID 42"
    );
    assert_eq!(
        AppError::IncompatibleCaCertTypeError("pem".into()).response_message(),
        " Incompatible ca cert type error, pem"
    );
    assert_eq!(
        AppError::OpenIdConnectUserInfoError("x".into()).response_message(),
        "Openidconnect client info error, x"
    );
    assert_eq!(AppError::MissingEmailServiceApiKeyError.response_message(), "Missing email service api key");
    assert_eq!(
        AppError::InvalidHeader { expected: "a\"b".into(), found: "c".into() }.response_message(),
        "invalid header (expected \"a\\\"b\", found \"c\")"
    );
    let (status, msg) = AppError::InvalidTokenError.into_response();
    assert_eq!((status, msg.as_str()), (500, "Invalid token"));
}

#[test]
fn error_descriptions() {
    assert_eq!(AppError::SqlxError("boom".into()).to_display_string(), "Sqlx error: boom");
    assert_eq!(AppError::Unauthorized("Refresh".into()).to_display_string(), "Refresh token required");
    assert_eq!(AppError::MissingAccessToken.to_display_string(), "Missing acces token error");
    assert_eq!(AppError::QueryError("whatever".into()).to_display_string(), "Query error");
    assert_eq!(AppError::NotFoundError("User not found".into()).to_display_string(), "User not found");
    assert_eq!(
        AppError::DatabaseDeleteError { resource: "Listing".into(), id: "7".into() }.to_display_string(),
        "Failed to delete Listing with ID 7"
    );
}
