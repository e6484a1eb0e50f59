//! The identities that session tokens carry: a user of a tenant
//! (`"<app_id>@<user_id>"`) or an administrator (`"<mgr_id>"`), and the
//! rule that accepts a decoded token.

use vstd::prelude::*;
use crate::text::{
    all_digits, decimal, digit_char, digit_value, digits_value, is_digit, parse_decimal, spec_decimal,
    spec_parse_decimal, unsigned_part,
};
use crate::web::{ApiError, ApiErrorCode, api_error, api_error2};

verus! {

/// How long a token stays valid, in seconds.
pub const JWT_TTL: i64 = 2592000;

/// The identity of an end user: the tenant and the user.
pub struct UserClaims {
    pub app_id: u64,
    pub user_id: u64,
}

impl Default for UserClaims {
    /// The anonymous caller.
    fn default() -> (r: Self)
        ensures
            r.app_id == 0 && r.user_id == 0,
    {
        UserClaims { app_id: 0, user_id: 0 }
    }
}

/// The identity of an administrator.
pub struct MgrClaims {
    pub mgr_id: u64,
}

pub open spec fn spec_user_subject(app_id: u64, user_id: u64) -> Seq<char> {
    spec_decimal(app_id as nat) + seq!['@'] + spec_decimal(user_id as nat)
}

/// Whether `s` holds `@` at `i` and nowhere else.
pub open spec fn sole_at(s: Seq<char>, i: int) -> bool {
    &&& 0 <= i < s.len()
    &&& s[i] == '@'
    &&& forall|k: int| 0 <= k < s.len() && k != i ==> #[trigger] s[k] != '@'
}

/// The identity that a user subject names: two decimal numbers around a
/// single `@`.
pub open spec fn spec_parse_user_subject(s: Seq<char>) -> Option<(u64, u64)> {
    if exists|i: int| sole_at(s, i) {
        let i = choose|i: int| sole_at(s, i);
        match (
            spec_parse_decimal(s.subrange(0, i)),
            spec_parse_decimal(s.subrange(i + 1, s.len() as int)),
        ) {
            (Some(a), Some(u)) => Some((a, u)),
            _ => None,
        }
    } else {
        None
    }
}

/// The subject of a user's token.
pub fn user_subject(claims: &UserClaims) -> (r: String)
    ensures
        r@ == spec_user_subject(claims.app_id, claims.user_id),
{
    proof {
        reveal_strlit("@");
    }
    let mut out = decimal(claims.app_id);
    out.append("@");
    let user = decimal(claims.user_id);
    out.append(user.as_str());
    out
}

/// The single `@` of `s`, if it has exactly one.
fn sole_at_position(s: &str) -> (r: Option<usize>)
    ensures
        r is Some <==> exists|i: int| sole_at(s@, i),
        r is Some ==> sole_at(s@, r->Some_0 as int),
{
    let len = s.unicode_len();
    let mut found: Option<usize> = None;
    let mut i: usize = 0;
    while i < len
        invariant
            i <= len,
            len == s@.len(),
            found is None ==> forall|k: int| 0 <= k < i ==> #[trigger] s@[k] != '@',
            found is Some ==> found->Some_0 < i && s@[found->Some_0 as int] == '@' && forall|k: int|
                0 <= k < i && k != found->Some_0 ==> #[trigger] s@[k] != '@',
        decreases len - i,
    {
        if s.get_char(i) == '@' {
            if found.is_some() {
                proof {
                    assert forall|j: int| !sole_at(s@, j) by {
                        let f = found->Some_0 as int;
                        if sole_at(s@, j) {
                            if j == f {
                                assert(s@[i as int] != '@');
                            } else {
                                assert(s@[f] != '@');
                            }
                        }
                    }
                }
                return None;
            }
            found = Some(i);
        }
        i = i + 1;
    }
    if found.is_none() {
        assert forall|j: int| !sole_at(s@, j) by {
            if sole_at(s@, j) {
                assert(s@[j] != '@');
            }
        }
    } else {
        assert(sole_at(s@, found->Some_0 as int));
    }
    found
}

/// Reads the identity out of a user subject. A subject without exactly one
/// `@` is malformed; one with a part that is not a `u64` is refused.
pub fn parse_user_subject(v: &str) -> (r: Result<UserClaims, ApiError>)
    ensures
        r is Ok <==> spec_parse_user_subject(v@) is Some,
        r is Ok ==> spec_parse_user_subject(v@) == Some((r->Ok_0.app_id, r->Ok_0.user_id)),
        r is Err ==> r->Err_0.code == ApiErrorCode::InvalidToken,
        !(exists|i: int| sole_at(v@, i)) ==> r is Err && r->Err_0.error@ == "format"@,
{
    let pos = match sole_at_position(v) {
        Some(p) => p,
        None => {
            return Err(api_error2(ApiErrorCode::InvalidToken, "format"));
        },
    };
    let len = v.unicode_len();
    proof {
        let i = choose|i: int| sole_at(v@, i);
        if i != pos {
            assert(v@[i] != '@');
        }
    }
    let app_id = match parse_decimal(v.substring_char(0, pos)) {
        Some(a) => a,
        None => {
            return Err(api_error(ApiErrorCode::InvalidToken));
        },
    };
    let user_id = match parse_decimal(v.substring_char(pos + 1, len)) {
        Some(u) => u,
        None => {
            return Err(api_error(ApiErrorCode::InvalidToken));
        },
    };
    Ok(UserClaims { app_id, user_id })
}

/// Reads an administrator's identity out of a subject.
pub fn parse_mgr_subject(v: &str) -> (r: Result<MgrClaims, ApiError>)
    ensures
        r is Ok <==> spec_parse_decimal(v@) is Some,
        r is Ok ==> spec_parse_decimal(v@) == Some(r->Ok_0.mgr_id),
        r is Err ==> r->Err_0.code == ApiErrorCode::InvalidToken,
{
    match parse_decimal(v) {
        Some(mgr_id) => Ok(MgrClaims { mgr_id }),
        None => Err(api_error(ApiErrorCode::InvalidToken)),
    }
}

proof fn lemma_decimal_digits(n: nat)
    ensures
        spec_decimal(n).len() > 0,
        all_digits(spec_decimal(n)),
        digits_value(spec_decimal(n)) == n,
        spec_decimal(n)[0] != '+',
    decreases n,
{
    let d = spec_decimal(n);
    if n < 10 {
        assert(digit_char(n as int) == seq!['0', '1', '2', '3', '4', '5', '6', '7', '8', '9'][n as int]);
        assert(d.drop_last() =~= Seq::<char>::empty());
        assert(digits_value(d.drop_last()) == 0);
    } else {
        lemma_decimal_digits(n / 10);
        let p = spec_decimal(n / 10);
        let c = digit_char((n % 10) as int);
        assert(d == p.push(c));
        assert(d.drop_last() =~= p);
        assert(c == seq!['0', '1', '2', '3', '4', '5', '6', '7', '8', '9'][(n % 10) as int]);
        assert(is_digit(c) && digit_value(c) == n % 10);
        assert forall|i: int| 0 <= i < d.len() implies is_digit(#[trigger] d[i]) by {
            if i < p.len() {
                assert(d[i] == p[i]);
            }
        }
        assert(d[0] == p[0]);
    }
}

/// Reading back the subject of a user's token gives the same identity.
pub proof fn law_user_subject_round_trip(app_id: u64, user_id: u64)
    ensures
        spec_parse_user_subject(spec_user_subject(app_id, user_id)) == Some((app_id, user_id)),
{
    let a = spec_decimal(app_id as nat);
    let u = spec_decimal(user_id as nat);
    let s = spec_user_subject(app_id, user_id);
    lemma_decimal_digits(app_id as nat);
    lemma_decimal_digits(user_id as nat);
    let i = a.len() as int;
    assert(s[i] == '@');
    assert forall|k: int| 0 <= k < s.len() && k != i implies #[trigger] s[k] != '@' by {
        if k < i {
            assert(s[k] == a[k]);
            assert(is_digit(a[k]));
        } else {
            assert(s[k] == u[k - i - 1]);
            assert(is_digit(u[k - i - 1]));
        }
    }
    assert(sole_at(s, i));
    let j = choose|j: int| sole_at(s, j);
    if j != i {
        assert(s[j] != '@');
    }
    assert(s.subrange(0, i) =~= a);
    assert(s.subrange(i + 1, s.len() as int) =~= u);
    assert(unsigned_part(a) == a);
    assert(unsigned_part(u) == u);
}

/// Accepts a decoded token whose audience tag is `expected_tc` and whose
/// issue time `ts` lies less than the token lifetime before `now`.
pub fn check_claims(expected_tc: &str, tc: &str, ts: i64, now: i64) -> (r: Result<(), ApiError>)
    ensures
        r is Ok <==> tc@ == expected_tc@ && ts + JWT_TTL > now,
        r is Err ==> r->Err_0.code == ApiErrorCode::InvalidToken && r->Err_0.error@ == "expired"@,
{
    let same = str_eq(tc, expected_tc);
    let fresh = ts > i64::MAX - JWT_TTL || ts + JWT_TTL > now;
    if !same || !fresh {
        return Err(api_error2(ApiErrorCode::InvalidToken, "expired"));
    }
    Ok(())
}

/// Whether two texts are equal, character by character.
fn str_eq(a: &str, b: &str) -> (r: bool)
    ensures
        r == (a@ == b@),
{
    let n = a.unicode_len();
    if n != b.unicode_len() {
        return false;
    }
    let mut i: usize = 0;
    while i < n
        invariant
            i <= n,
            n == a@.len() && n == b@.len(),
            forall|k: int| 0 <= k < i ==> a@[k] == b@[k],
        decreases n - i,
    {
        if a.get_char(i) != b.get_char(i) {
            return false;
        }
        i = i + 1;
    }
    assert(a@ =~= b@);
    true
}

} // verus!
