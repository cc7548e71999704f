use app_libs::app_error::AppError;
use app_libs::utils::env::EnvError;
use app_libs::utils::jsonwebtoken::{issue_claims, MAX_TIMESTAMP_SECOND, MIN_TIMESTAMP_SECOND};

#[test]
fn claims_expire_a_day_after_issue() {
    let c = issue_claims("a@example.com".to_string(), 1_700_000_000, 123).unwrap();
    assert_eq!(c.email, "a@example.com");
    assert_eq!(c.iat, 1_700_000_000);
    assert_eq!(c.exp, 1_700_086_400);
}

#[test]
fn expiry_beyond_the_last_timestamp_is_an_error() {
    assert!(issue_claims("a@example.com".to_string(), MAX_TIMESTAMP_SECOND - 10, 0).is_err());
    assert!(issue_claims("a@example.com".to_string(), MAX_TIMESTAMP_SECOND - 86400, 0).is_ok());
}

#[test]
fn internal_error_message_is_shown() {
    let (status, message) = AppError::InternalServerError("db down".to_string()).response();
    assert_eq!(status, 500);
    assert_eq!(message, "db down");
}

#[test]
fn other_errors_are_hidden() {
    let (status, message) =
        AppError::Env(EnvError::NotFound { key: "PORT".to_string() }).response();
    assert_eq!(status, 500);
    assert_eq!(message, "An error has occurred");
    let (_, message) = AppError::Io("disk".to_string()).response();
    assert_eq!(message, "An error has occurred");
}

#[test]
fn timestamp_range_and_sign_follow_jiff() {
    let e = || "a@example.com".to_string();
    let c = issue_claims(e(), 253402120800, 0).unwrap();
    assert_eq!(c.exp, 253402207200);
    assert!(issue_claims(e(), 253402120801, 0).is_err());
    assert!(issue_claims(e(), MIN_TIMESTAMP_SECOND - 1, 0).is_err());
    assert!(issue_claims(e(), MIN_TIMESTAMP_SECOND, -1).is_err());
    assert!(issue_claims(e(), 0, 1_000_000_000).is_err());
    let c = issue_claims(e(), -86402, 1).unwrap();
    assert_eq!((c.iat, c.exp), (-86401, -1));
    let c = issue_claims(e(), -1, -5).unwrap();
    assert_eq!((c.iat, c.exp), (-1, 86398));
    let c = issue_claims(e(), 2, -999_999_999).unwrap();
    assert_eq!((c.iat, c.exp), (1, 86401));
    for (s, n) in [(0i64, 0i32), (-86402, 1), (-1, -5), (2, -999_999_999), (1_700_000_000, 5)] {
        let t = jiff::Timestamp::new(s, n).unwrap();
        let c = issue_claims(e(), s, n).unwrap();
        assert_eq!(c.iat, t.as_second());
        assert_eq!(c.exp, t.checked_add(jiff::ToSpan::hours(24)).unwrap().as_second());
    }
}
