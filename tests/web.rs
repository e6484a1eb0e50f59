use std::collections::HashMap;

use doggtalk::base::ArcDataMap;
use doggtalk::common::{app_error, app_error2, app_success};
use doggtalk::user::UserSimple;
use doggtalk::web::{api_error, api_error2, api_errore, api_success, parse_error_text, render_error, ApiErrorCode};

#[test]
fn codes_on_the_wire() {
    assert_eq!(ApiErrorCode::Success.code(), 0);
    assert_eq!(ApiErrorCode::InvalidDatabase.code(), 1001);
    assert_eq!(ApiErrorCode::InvalidToken.code(), 2003);
    assert_eq!(ApiErrorCode::NoPermission.code(), 3003);
    assert_eq!(ApiErrorCode::TopicNotFound.code(), 5001);
    assert_eq!(ApiErrorCode::ReplyNotFound.code(), 5101);
    assert_eq!(ApiErrorCode::Unexpected.code(), 9999);
    assert_eq!(doggtalk::common::ApiErrorCode::UserOrPasswordFailed.code(), 3001);
}

#[test]
fn error_values() {
    let e = api_error(ApiErrorCode::NoPermission);
    assert_eq!((e.code, e.error.as_str()), (ApiErrorCode::NoPermission, "undefined"));
    let e = api_error2(ApiErrorCode::InvalidToken, "decode");
    assert_eq!(e.error, "decode");
    let e = api_errore(ApiErrorCode::InvalidDatabase, "connection refused");
    assert_eq!(e.error, "connection refused");
    assert_eq!(api_success(5).data, 5);
    let e = app_error(doggtalk::common::ApiErrorCode::Unexpected);
    assert_eq!(e.extra, "undefined");
    assert_eq!(app_error2(doggtalk::common::ApiErrorCode::Unexpected, "x".to_string()).extra, "x");
    assert_eq!(app_success("d").data, "d");
}

#[test]
fn rendered_messages() {
    let mut table = HashMap::new();
    table.insert(2001, "invalid params:".to_string());
    table.insert(3003, "no permission".to_string());
    assert_eq!(render_error(ApiErrorCode::InvalidParams, "count", &table), (2001, "invalid params: count".to_string()));
    assert_eq!(render_error(ApiErrorCode::NoPermission, "undefined", &table), (3003, "no permission".to_string()));
    assert_eq!(render_error(ApiErrorCode::Unexpected, "boom", &table), (9999, "boom".to_string()));
}

#[test]
fn rejection_texts() {
    assert_eq!(
        parse_error_text("Failed to deserialize the JSON body into the target type: missing field `title` at line 1 column 20"),
        "missing field `title`"
    );
    assert_eq!(parse_error_text("a: b: c"), "c");
    assert_eq!(parse_error_text("no separator"), "no separator");
    assert_eq!(parse_error_text("x: stays at home"), "stays");
}

#[test]
fn shared_map_defaults() {
    let mut m: ArcDataMap<u64, UserSimple> = ArcDataMap::new();
    m.insert(3, UserSimple { id: 3, display_name: "ann".to_string(), ..Default::default() });
    assert_eq!(m.get(3).display_name, "ann");
    assert_eq!(m.get(4).id, 0);
    assert_eq!(m.get(4).display_name, "");
}
