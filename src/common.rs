//! The first, smaller form of the result envelope: a success carries data,
//! an error carries a code and a free detail text.

use vstd::prelude::*;

verus! {

#[derive(PartialEq, Eq, Structural, Clone, Copy, Debug)]
pub enum ApiErrorCode {
    Success,
    UserOrPasswordFailed,
    Unexpected,
}

pub open spec fn spec_code_value(code: ApiErrorCode) -> i32 {
    match code {
        ApiErrorCode::Success => 0,
        ApiErrorCode::UserOrPasswordFailed => 3001,
        ApiErrorCode::Unexpected => 9999,
    }
}

impl ApiErrorCode {
    pub fn code(&self) -> (r: i32)
        ensures
            r == spec_code_value(*self),
    {
        match self {
            ApiErrorCode::Success => 0,
            ApiErrorCode::UserOrPasswordFailed => 3001,
            ApiErrorCode::Unexpected => 9999,
        }
    }
}

pub struct ApiSuccess<T> {
    pub data: T,
}

pub struct ApiError {
    pub code: ApiErrorCode,
    pub extra: String,
}

pub fn app_success<T>(data: T) -> (r: ApiSuccess<T>)
    ensures
        r.data == data,
{
    ApiSuccess { data }
}

/// An error with no detail: its text is "undefined".
pub fn app_error(code: ApiErrorCode) -> (r: ApiError)
    ensures
        r.code == code,
        r.extra@ == "undefined"@,
{
    ApiError { code, extra: String::from_str("undefined") }
}

pub fn app_error2(code: ApiErrorCode, extra: String) -> (r: ApiError)
    ensures
        r.code == code,
        r.extra == extra,
{
    ApiError { code, extra }
}

} // verus!
