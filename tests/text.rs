use doggtalk::auth::{check_claims, parse_mgr_subject, parse_user_subject, user_subject, UserClaims};
use doggtalk::text::{decimal, parse_decimal};
use doggtalk::web::ApiErrorCode;

#[test]
fn decimal_text() {
    assert_eq!(decimal(0), "0");
    assert_eq!(decimal(7), "7");
    assert_eq!(decimal(1234567890), "1234567890");
    assert_eq!(decimal(u64::MAX), "18446744073709551615");
}

#[test]
fn decimal_reading() {
    assert_eq!(parse_decimal("42"), Some(42));
    assert_eq!(parse_decimal("+42"), Some(42));
    assert_eq!(parse_decimal("007"), Some(7));
    assert_eq!(parse_decimal("18446744073709551615"), Some(u64::MAX));
    assert_eq!(parse_decimal("18446744073709551616"), None);
    assert_eq!(parse_decimal(""), None);
    assert_eq!(parse_decimal("+"), None);
    assert_eq!(parse_decimal("-1"), None);
    assert_eq!(parse_decimal("1a"), None);
    assert_eq!(parse_decimal(" 1"), None);
}

#[test]
fn user_subject_round_trip() {
    let s = user_subject(&UserClaims { app_id: 12, user_id: 345 });
    assert_eq!(s, "12@345");
    let c = parse_user_subject(&s).ok().unwrap();
    assert_eq!((c.app_id, c.user_id), (12, 345));
}

#[test]
fn malformed_user_subjects() {
    let e = parse_user_subject("12").err().unwrap();
    assert_eq!((e.code, e.error.as_str()), (ApiErrorCode::InvalidToken, "format"));
    let e = parse_user_subject("1@2@3").err().unwrap();
    assert_eq!((e.code, e.error.as_str()), (ApiErrorCode::InvalidToken, "format"));
    let e = parse_user_subject("x@2").err().unwrap();
    assert_eq!((e.code, e.error.as_str()), (ApiErrorCode::InvalidToken, "undefined"));
    let e = parse_user_subject("1@").err().unwrap();
    assert_eq!(e.code, ApiErrorCode::InvalidToken);
}

#[test]
fn manager_subjects() {
    assert_eq!(parse_mgr_subject("77").ok().unwrap().mgr_id, 77);
    assert_eq!(parse_mgr_subject("7x").err().unwrap().code, ApiErrorCode::InvalidToken);
}

#[test]
fn claims_acceptance() {
    let ttl: i64 = 30 * 24 * 3600;
    assert!(check_claims("sdk", "sdk", 1000, 1000 + ttl - 1).is_ok());
    let e = check_claims("sdk", "sdk", 1000, 1000 + ttl).err().unwrap();
    assert_eq!((e.code, e.error.as_str()), (ApiErrorCode::InvalidToken, "expired"));
    assert!(check_claims("sdk", "mgr", 1000, 1000).is_err());
    assert!(check_claims("sdk", "sdk", i64::MAX, i64::MAX).is_ok());
}
