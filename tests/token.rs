use doggtalk::auth::{MgrClaims, UserClaims};
use doggtalk::jwt::{build_mgr_token, build_user_token, jwt_build_at, jwt_parse_at, mgr_claims_from_token, user_claims_from_token};
use doggtalk::web::ApiErrorCode;

const SECRET: &[u8] = b"test secret";

#[test]
fn user_tokens_round_trip() {
    let t = build_user_token(UserClaims { app_id: 3, user_id: 99 }, SECRET).ok().unwrap();
    assert!(!t.contains("3@99"));
    let c = user_claims_from_token(&t, SECRET).ok().unwrap();
    assert_eq!((c.app_id, c.user_id), (3, 99));
}

#[test]
fn tokens_are_bound_to_secret_and_audience() {
    let t = build_user_token(UserClaims { app_id: 3, user_id: 99 }, SECRET).ok().unwrap();
    let e = user_claims_from_token(&t, b"other").err().unwrap();
    assert_eq!((e.code, e.error.as_str()), (ApiErrorCode::InvalidToken, "decode"));
    let e = mgr_claims_from_token(&t, SECRET).err().unwrap();
    assert_eq!((e.code, e.error.as_str()), (ApiErrorCode::InvalidToken, "expired"));
    let m = build_mgr_token(MgrClaims { mgr_id: 8 }, SECRET).ok().unwrap();
    assert_eq!(mgr_claims_from_token(&m, SECRET).ok().unwrap().mgr_id, 8);
}

#[test]
fn old_tokens_expire() {
    let t = jwt_build_at("sdk", "1@2", 1000, SECRET).ok().unwrap();
    let e = user_claims_from_token(&t, SECRET).err().unwrap();
    assert_eq!((e.code, e.error.as_str()), (ApiErrorCode::InvalidToken, "expired"));
    let decoded = Some(("sdk".to_string(), "1@2".to_string(), 1000));
    assert_eq!(jwt_parse_at("sdk", decoded, 1001).ok(), Some("1@2".to_string()));
    let decoded = Some(("sdk".to_string(), "1@2".to_string(), 1000));
    assert!(jwt_parse_at("sdk", decoded, 1000 + 30 * 24 * 3600).is_err());
    assert_eq!(jwt_parse_at("sdk", None, 0).err().unwrap().error, "decode");
}
