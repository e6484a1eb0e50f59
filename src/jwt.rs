//! Signed session tokens: claims `tc` (the audience tag), `v` (the subject)
//! and `ts` (issue time, seconds), signed with HS384 under the process's
//! secret, and valid for a fixed lifetime.

use vstd::prelude::*;
use crate::auth::{
    JWT_TTL, MgrClaims, UserClaims, check_claims, parse_mgr_subject, parse_user_subject,
    spec_parse_user_subject, spec_user_subject, user_subject,
};
use crate::base::timestamp;
use crate::text::{decimal, spec_decimal, spec_parse_decimal};
use crate::web::{ApiError, ApiErrorCode, api_error2};

verus! {

/// The token that signs the claims `tc`, `v`, `ts` under `secret`.
pub uninterp spec fn signed_token(tc: Seq<char>, v: Seq<char>, ts: int, secret: Seq<u8>) -> Seq<char>;

/// The claims `tc`, `v`, `ts` of `token` where its signature under
/// `secret` checks and it holds them with these types.
pub uninterp spec fn token_claims(token: Seq<char>, secret: Seq<u8>) -> Option<(Seq<char>, Seq<char>, int)>;

/// Relies on `jsonwebtoken::encode` with an HS384 header and an HMAC key
/// made from `secret`: the token of the claims object `{tc, v, ts}`. It
/// fails only on a key of another algorithm family or on claims that do
/// not serialize, neither of which can happen here.
#[verifier::external_body]
fn jwt_encode(tc: &str, v: &str, ts: i64, secret: &[u8]) -> (r: Option<String>)
    ensures
        r is Some,
        r is Some ==> r->Some_0@ == signed_token(tc@, v@, ts as int, secret@),
{
    let mut claims = serde_json::Map::new();
    claims.insert("tc".to_string(), serde_json::Value::from(tc));
    claims.insert("v".to_string(), serde_json::Value::from(v));
    claims.insert("ts".to_string(), serde_json::Value::from(ts));
    let header = jsonwebtoken::Header::new(jsonwebtoken::Algorithm::HS384);
    let key = jsonwebtoken::EncodingKey::from_secret(secret);
    jsonwebtoken::encode(&header, &claims, &key).ok()
}

/// Relies on `jsonwebtoken::decode` for HS384 under `secret`, with no
/// registered claim required or checked: the claims `tc`, `v`, `ts` of a
/// token whose signature checks.
#[verifier::external_body]
fn jwt_decode(token: &str, secret: &[u8]) -> (r: Option<(String, String, i64)>)
    ensures
        r is None ==> token_claims(token@, secret@) is None,
        r is Some ==> token_claims(token@, secret@) == Some(
            (r->Some_0.0@, r->Some_0.1@, r->Some_0.2 as int),
        ),
{
    let mut validation = jsonwebtoken::Validation::new(jsonwebtoken::Algorithm::HS384);
    validation.required_spec_claims.clear();
    validation.validate_exp = false;
    let key = jsonwebtoken::DecodingKey::from_secret(secret);
    let c = jsonwebtoken::decode::<serde_json::Value>(token, &key, &validation).ok()?.claims;
    let tc = c.get("tc")?.as_str()?.to_string();
    let v = c.get("v")?.as_str()?.to_string();
    Some((tc, v, c.get("ts")?.as_i64()?))
}

/// The token of `tc` and `v` issued at `ts`.
pub fn jwt_build_at(tc: &str, v: &str, ts: i64, secret: &[u8]) -> (r: Result<String, ApiError>)
    ensures
        r is Ok,
        r is Ok ==> r->Ok_0@ == signed_token(tc@, v@, ts as int, secret@),
{
    match jwt_encode(tc, v, ts, secret) {
        Some(t) => Ok(t),
        None => Err(api_error2(ApiErrorCode::Unexpected, "token creation")),
    }
}

/// The token of `tc` and `v` issued now.
pub fn jwt_build(tc: &str, v: &str, secret: &[u8]) -> (r: Result<String, ApiError>)
    ensures
        r is Ok,
        r is Ok ==> exists|ts: i64| r->Ok_0@ == signed_token(tc@, v@, ts as int, secret@),
{
    let ts = timestamp();
    jwt_build_at(tc, v, ts, secret)
}

/// Accepts decoded claims at time `now`: they must exist, carry the tag
/// `tc` and be younger than the token lifetime. Gives the subject.
pub fn jwt_parse_at(tc: &str, decoded: Option<(String, String, i64)>, now: i64) -> (r: Result<String, ApiError>)
    ensures
        decoded is None ==> r is Err && r->Err_0.code == ApiErrorCode::InvalidToken && r->Err_0.error@
            == "decode"@,
        decoded is Some ==> {
            let (dtc, v, ts) = decoded->Some_0;
            &&& r is Ok <==> dtc@ == tc@ && ts + JWT_TTL > now
            &&& r is Ok ==> r->Ok_0 == v
            &&& r is Err ==> r->Err_0.code == ApiErrorCode::InvalidToken && r->Err_0.error@
                == "expired"@
        },
{
    match decoded {
        None => Err(api_error2(ApiErrorCode::InvalidToken, "decode")),
        Some((dtc, v, ts)) => {
            check_claims(tc, dtc.as_str(), ts, now)?;
            Ok(v)
        },
    }
}

/// The subject of a valid token with tag `tc`, checked now.
pub fn jwt_parse(tc: &str, token: &str, secret: &[u8]) -> (r: Result<String, ApiError>)
    ensures
        r is Ok ==> exists|ts: int| token_claims(token@, secret@) == Some((tc@, r->Ok_0@, ts)),
        token_claims(token@, secret@) is None ==> r is Err && r->Err_0.code == ApiErrorCode::InvalidToken,
        r is Err ==> r->Err_0.code == ApiErrorCode::InvalidToken,
{
    let decoded = jwt_decode(token, secret);
    let now = timestamp();
    jwt_parse_at(tc, decoded, now)
}

/// An end user's token: tag "sdk", subject `"<app_id>@<user_id>"`.
pub fn build_user_token(claims: UserClaims, secret: &[u8]) -> (r: Result<String, ApiError>)
    ensures
        r is Ok ==> exists|ts: i64|
            r->Ok_0@ == signed_token(
                "sdk"@,
                spec_user_subject(claims.app_id, claims.user_id),
                ts as int,
                secret@,
            ),
        r is Ok,
{
    let v = user_subject(&claims);
    jwt_build("sdk", v.as_str(), secret)
}

/// An administrator's token: tag "mgr", subject the decimal id.
pub fn build_mgr_token(claims: MgrClaims, secret: &[u8]) -> (r: Result<String, ApiError>)
    ensures
        r is Ok ==> exists|ts: i64|
            r->Ok_0@ == signed_token("mgr"@, spec_decimal(claims.mgr_id as nat), ts as int, secret@),
        r is Ok,
{
    let v = decimal(claims.mgr_id);
    jwt_build("mgr", v.as_str(), secret)
}

/// The end user named by a bearer token.
pub fn user_claims_from_token(token: &str, secret: &[u8]) -> (r: Result<UserClaims, ApiError>)
    ensures
        r is Ok ==> exists|v: Seq<char>, ts: int|
            token_claims(token@, secret@) == Some(("sdk"@, v, ts)) && spec_parse_user_subject(v)
                == Some((r->Ok_0.app_id, r->Ok_0.user_id)),
        r is Err ==> r->Err_0.code == ApiErrorCode::InvalidToken,
{
    let v = jwt_parse("sdk", token, secret)?;
    parse_user_subject(v.as_str())
}

/// The administrator named by a bearer token.
pub fn mgr_claims_from_token(token: &str, secret: &[u8]) -> (r: Result<MgrClaims, ApiError>)
    ensures
        r is Ok ==> exists|v: Seq<char>, ts: int|
            token_claims(token@, secret@) == Some(("mgr"@, v, ts)) && spec_parse_decimal(v) == Some(
                r->Ok_0.mgr_id,
            ),
        r is Err ==> r->Err_0.code == ApiErrorCode::InvalidToken,
{
    let v = jwt_parse("mgr", token, secret)?;
    parse_mgr_subject(v.as_str())
}

} // verus!
