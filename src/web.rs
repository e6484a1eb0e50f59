//! The JSON envelope of the HTTP API: error taxonomy, result values and the
//! rendering of error messages.

use vstd::prelude::*;
use std::collections::HashMap;

verus! {

broadcast use vstd::std_specs::hash::group_hash_axioms;

/// The error taxonomy that callers branch on; `code` gives the wire number.
#[derive(PartialEq, Eq, Structural, Clone, Copy, Debug)]
pub enum ApiErrorCode {
    Success,
    InvalidDatabase,
    InvalidParams,
    InvalidSign,
    InvalidToken,
    AccountNotFound,
    AccountOrPasswordFailed,
    NoPermission,
    AccountNotActived,
    AppNotFound,
    TopicNotFound,
    ReplyNotFound,
    Unexpected,
}

/// The number that a code carries on the wire.
pub open spec fn spec_code_value(code: ApiErrorCode) -> i32 {
    match code {
        ApiErrorCode::Success => 0,
        ApiErrorCode::InvalidDatabase => 1001,
        ApiErrorCode::InvalidParams => 2001,
        ApiErrorCode::InvalidSign => 2002,
        ApiErrorCode::InvalidToken => 2003,
        ApiErrorCode::AccountNotFound => 3001,
        ApiErrorCode::AccountOrPasswordFailed => 3002,
        ApiErrorCode::NoPermission => 3003,
        ApiErrorCode::AccountNotActived => 3004,
        ApiErrorCode::AppNotFound => 4001,
        ApiErrorCode::TopicNotFound => 5001,
        ApiErrorCode::ReplyNotFound => 5101,
        ApiErrorCode::Unexpected => 9999,
    }
}

impl ApiErrorCode {
    pub fn code(&self) -> (r: i32)
        ensures
            r == spec_code_value(*self),
    {
        match self {
            ApiErrorCode::Success => 0,
            ApiErrorCode::InvalidDatabase => 1001,
            ApiErrorCode::InvalidParams => 2001,
            ApiErrorCode::InvalidSign => 2002,
            ApiErrorCode::InvalidToken => 2003,
            ApiErrorCode::AccountNotFound => 3001,
            ApiErrorCode::AccountOrPasswordFailed => 3002,
            ApiErrorCode::NoPermission => 3003,
            ApiErrorCode::AccountNotActived => 3004,
            ApiErrorCode::AppNotFound => 4001,
            ApiErrorCode::TopicNotFound => 5001,
            ApiErrorCode::ReplyNotFound => 5101,
            ApiErrorCode::Unexpected => 9999,
        }
    }
}

/// A successful answer: `data` goes out under code 0.
pub struct ApiSuccess<T> {
    pub data: T,
}

/// A failed answer: a code of the taxonomy and a detail text.
pub struct ApiError {
    pub code: ApiErrorCode,
    pub error: String,
}

pub fn api_success<T>(data: T) -> (r: ApiSuccess<T>)
    ensures
        r.data == data,
{
    ApiSuccess { data }
}

/// An error with no detail: its text is "undefined".
pub fn api_error(code: ApiErrorCode) -> (r: ApiError)
    ensures
        r.code == code,
        r.error@ == "undefined"@,
{
    ApiError { code, error: String::from_str("undefined") }
}

/// An error with a detail text.
pub fn api_error2(code: ApiErrorCode, extra: &str) -> (r: ApiError)
    ensures
        r.code == code,
        r.error@ == extra@,
{
    ApiError { code, error: String::from_str(extra) }
}

/// An error whose detail is the message of an underlying failure.
pub fn api_errore(code: ApiErrorCode, e: &str) -> (r: ApiError)
    ensures
        r.code == code,
        r.error@ == e@,
{
    ApiError { code, error: String::from_str(e) }
}

/// The message of an error: the template of its code where the table has
/// one, with the detail appended where the template ends in a colon; the
/// detail alone where the table has none.
pub open spec fn spec_render_text(template: Option<Seq<char>>, error: Seq<char>) -> Seq<char> {
    match template {
        Some(t) => if t.len() > 0 && t.last() == ':' {
            t + seq![' '] + error
        } else {
            t
        },
        None => error,
    }
}

pub open spec fn spec_template(table: Map<i32, String>, code: i32) -> Option<Seq<char>> {
    if table.contains_key(code) {
        Some(table[code]@)
    } else {
        None
    }
}

/// The wire number and message of an error, with messages looked up in
/// `table`, the table of message templates by code.
pub fn render_error(code: ApiErrorCode, error: &str, table: &HashMap<i32, String>) -> (r: (i32, String))
    ensures
        r.0 == spec_code_value(code),
        r.1@ == spec_render_text(spec_template(table@, spec_code_value(code)), error@),
{
    let code = code.code();
    let text = match table.get(&code) {
        Some(t) => {
            let mut out = t.clone();
            let n = out.as_str().unicode_len();
            if n > 0 && out.as_str().get_char(n - 1) == ':' {
                proof {
                    reveal_strlit(" ");
                }
                out.append(" ");
                out.append(error);
            }
            out
        },
        None => String::from_str(error),
    };
    (code, text)
}

/// Whether `pat` occurs in `s` at position `i`.
pub open spec fn occurs_at(s: Seq<char>, pat: Seq<char>, i: int) -> bool {
    0 <= i && i + pat.len() <= s.len() && s.subrange(i, i + pat.len()) == pat
}

pub open spec fn colon_space() -> Seq<char> {
    seq![':', ' ']
}

pub open spec fn space_at_space() -> Seq<char> {
    seq![' ', 'a', 't', ' ']
}

/// The last place where `pat` occurs in `s`.
pub open spec fn last_occurrence(s: Seq<char>, pat: Seq<char>) -> int {
    choose|i: int| occurs_at(s, pat, i) && forall|k: int| i < k ==> !#[trigger] occurs_at(s, pat, k)
}

/// The first place where `pat` occurs in `s`.
pub open spec fn first_occurrence(s: Seq<char>, pat: Seq<char>) -> int {
    choose|i: int| occurs_at(s, pat, i) && forall|k: int| k < i ==> !#[trigger] occurs_at(s, pat, k)
}

/// The readable part of a request-rejection text: what follows its last
/// ": ", cut before the first " at " in it.
pub open spec fn spec_parse_error_text(s: Seq<char>) -> Seq<char> {
    if exists|i: int| occurs_at(s, colon_space(), i) {
        let p = last_occurrence(s, colon_space());
        let rest = s.subrange(p + 2, s.len() as int);
        if exists|j: int| occurs_at(rest, space_at_space(), j) {
            rest.subrange(0, first_occurrence(rest, space_at_space()))
        } else {
            rest
        }
    } else {
        s
    }
}

fn matches_at(s: &str, len: usize, pat: &Vec<char>, i: usize) -> (r: bool)
    requires
        len == s@.len(),
    ensures
        r == occurs_at(s@, pat@, i as int),
{
    if pat.len() > len || i > len - pat.len() {
        return false;
    }
    let mut k: usize = 0;
    while k < pat.len()
        invariant
            k <= pat@.len(),
            i + pat@.len() <= len,
            len == s@.len(),
            forall|m: int| 0 <= m < k ==> s@[i + m] == pat@[m],
        decreases pat@.len() - k,
    {
        if s.get_char(i + k) != pat[k] {
            assert(s@.subrange(i as int, i + pat@.len())[k as int] != pat@[k as int]);
            return false;
        }
        k = k + 1;
    }
    assert(s@.subrange(i as int, i + pat@.len()) =~= pat@);
    true
}

/// The last place of `pat` in `s`, searching from the end.
fn rfind(s: &str, pat: &Vec<char>) -> (r: Option<usize>)
    requires
        pat@.len() > 0,
    ensures
        r is None ==> forall|k: int| !#[trigger] occurs_at(s@, pat@, k),
        r is Some ==> occurs_at(s@, pat@, r->Some_0 as int) && forall|k: int|
            r->Some_0 < k ==> !#[trigger] occurs_at(s@, pat@, k),
{
    let len = s.unicode_len();
    if pat.len() > len {
        return None;
    }
    let mut i: usize = len - pat.len() + 1;
    while i > 0
        invariant
            i <= len - pat@.len() + 1,
            0 < pat@.len() <= len,
            len == s@.len(),
            forall|k: int| i <= k ==> !#[trigger] occurs_at(s@, pat@, k),
        decreases i,
    {
        i = i - 1;
        if matches_at(s, len, pat, i) {
            return Some(i);
        }
    }
    None
}

/// The first place of `pat` in `s`.
fn find(s: &str, pat: &Vec<char>) -> (r: Option<usize>)
    requires
        pat@.len() > 0,
    ensures
        r is None ==> forall|k: int| !#[trigger] occurs_at(s@, pat@, k),
        r is Some ==> occurs_at(s@, pat@, r->Some_0 as int) && forall|k: int|
            k < r->Some_0 ==> !#[trigger] occurs_at(s@, pat@, k),
{
    let len = s.unicode_len();
    if pat.len() > len {
        return None;
    }
    let mut i: usize = 0;
    while i <= len - pat.len()
        invariant
            0 < pat@.len() <= len,
            len == s@.len(),
            forall|k: int| k < i ==> !#[trigger] occurs_at(s@, pat@, k),
        decreases len + 1 - i,
    {
        if matches_at(s, len, pat, i) {
            return Some(i);
        }
        i = i + 1;
    }
    None
}

/// The readable part of a request-rejection text.
pub fn parse_error_text(text: &str) -> (r: String)
    ensures
        r@ == spec_parse_error_text(text@),
{
    let colon = vec![':', ' '];
    let at = vec![' ', 'a', 't', ' '];
    assert(colon@ =~= colon_space());
    assert(at@ =~= space_at_space());
    match rfind(text, &colon) {
        Some(pos) => {
            let len = text.unicode_len();
            let rest = text.substring_char(pos + 2, len);
            proof {
                let p = last_occurrence(text@, colon_space());
                assert(occurs_at(text@, colon_space(), pos as int));
                assert(p == pos);
            }
            match find(rest, &at) {
                Some(cut) => {
                    proof {
                        let q = first_occurrence(rest@, space_at_space());
                        assert(occurs_at(rest@, space_at_space(), cut as int));
                        assert(q == cut);
                    }
                    String::from_str(rest.substring_char(0, cut))
                },
                None => String::from_str(rest),
            }
        },
        None => String::from_str(text),
    }
}

} // verus!
