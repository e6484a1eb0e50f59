use doggtalk::app::{build_key, build_key_from, new_app, AppModel};
use doggtalk::hash::{build_hash, digest_matches, eq_ignore_ascii_case, verify_hash};
use doggtalk::manager::{check_manager_login, ManagerModel};
use doggtalk::user::{check_sync_sign, sign_text};
use doggtalk::validate::{validate_gender, validate_page_count, validate_url};
use doggtalk::web::ApiErrorCode;

const ABC_SHA256: &str = "ba7816bf8f01cfea414140de5dae2223b00361a396177a9cb410ff61f20015ad";

#[test]
fn hashes_are_lower_hex_sha256() {
    assert_eq!(build_hash("abc"), ABC_SHA256);
    assert!(verify_hash("abc", ABC_SHA256));
    assert!(verify_hash("abc", &ABC_SHA256.to_uppercase()));
    assert!(!verify_hash("abd", ABC_SHA256));
    assert!(!verify_hash("abc", "ba78"));
}

#[test]
fn digests_compare_as_hex() {
    assert!(digest_matches(&[0xab, 0x01], "ab01"));
    assert!(digest_matches(&[0xab, 0x01], "AB01"));
    assert!(!digest_matches(&[0xab, 0x01], "ab02"));
    assert!(eq_ignore_ascii_case("Hello", "hELLO"));
    assert!(!eq_ignore_ascii_case("Hello", "Hell"));
    assert!(!eq_ignore_ascii_case("a[", "A{"));
}

#[test]
fn manager_login() {
    let m = ManagerModel { id: 4, username: "root".to_string(), password: build_hash("pw"), created_at: 0 };
    assert_eq!(check_manager_login(&Some(m), "pw").ok(), Some(4));
    let m = ManagerModel { id: 4, password: build_hash("pw"), ..Default::default() };
    let e = check_manager_login(&Some(m), "px").err().unwrap();
    assert_eq!(e.code, ApiErrorCode::AccountOrPasswordFailed);
    let e = check_manager_login(&None, "pw").err().unwrap();
    assert_eq!(e.code, ApiErrorCode::AccountOrPasswordFailed);
}

#[test]
fn synced_login_signature() {
    assert_eq!(sign_text(12, "s3", "bob"), "12s3bobs3");
    let sign = build_hash("12s3bobs3");
    assert!(check_sync_sign(12, "s3", "bob", &sign).is_ok());
    let e = check_sync_sign(12, "s3", "eve", &sign).err().unwrap();
    assert_eq!(e.code, ApiErrorCode::InvalidSign);
}

#[test]
fn tenant_keys() {
    assert_eq!(build_key_from(1337, 0), "LZ0");
    assert_eq!(build_key_from(0, 62), "010");
    assert!(build_key().len() >= 2);
    let a: AppModel = new_app("forum".to_string(), None);
    assert_eq!(a.app_secret.len(), 36);
    assert_eq!(a.name, "forum");
    let s = a.to_simple();
    assert_eq!(s.app_key, a.app_key);
}

#[test]
fn field_checks() {
    assert!(validate_url("").is_ok());
    assert!(validate_url("https://a.b/c.png").is_ok());
    assert!(validate_url("http://a.b").is_err());
    assert!(validate_url("https:/").is_err());
    assert!(validate_gender(0).is_ok());
    assert!(validate_gender(2).is_ok());
    assert!(validate_gender(3).is_err());
    assert!(validate_gender(-1).is_err());
    assert!(validate_page_count(500).is_ok());
    assert!(validate_page_count(501).is_err());
}
