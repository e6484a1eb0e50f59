//! Field checks of request payloads.

use vstd::prelude::*;
use validator::ValidationError;

verus! {

#[verifier::external_type_specification]
#[verifier::external_body]
pub struct ExValidationError(validator::ValidationError);

/// Relies on `validator::ValidationError::new`: an error that carries the
/// given code.
pub assume_specification[ validator::ValidationError::new ](code: &'static str) -> ValidationError;

pub open spec fn https_prefix() -> Seq<char> {
    seq!['h', 't', 't', 'p', 's', ':', '/', '/']
}

/// A URL field is empty or starts with `https://`.
pub fn validate_url(value: &str) -> (r: Result<(), ValidationError>)
    ensures
        r is Ok <==> value@.len() == 0 || (value@.len() >= 8 && value@.subrange(0, 8) == https_prefix()),
{
    let n = value.unicode_len();
    if n == 0 {
        return Ok(());
    }
    let prefix = vec!['h', 't', 't', 'p', 's', ':', '/', '/'];
    if n >= 8 {
        let mut i: usize = 0;
        while i < 8
            invariant
                i <= 8,
                n == value@.len() && n >= 8,
                prefix@ == https_prefix(),
                forall|k: int| 0 <= k < i ==> value@[k] == prefix@[k],
            decreases 8 - i,
        {
            if value.get_char(i) != prefix[i] {
                assert(value@.subrange(0, 8)[i as int] != https_prefix()[i as int]);
                return Err(ValidationError::new("require http or https prefix"));
            }
            i = i + 1;
        }
        assert(value@.subrange(0, 8) =~= https_prefix());
        return Ok(());
    }
    Err(ValidationError::new("require http or https prefix"))
}

/// A gender is 0, 1 or 2.
pub fn validate_gender(value: i8) -> (r: Result<(), ValidationError>)
    ensures
        r is Ok <==> 0 <= value <= 2,
{
    if value >= 0 && value <= 2 {
        return Ok(());
    }
    Err(ValidationError::new("between 0 to 2"))
}

/// A page holds at most 500 items.
pub fn validate_page_count(value: u32) -> (r: Result<(), ValidationError>)
    ensures
        r is Ok <==> value <= 500,
{
    if value <= 500 {
        return Ok(());
    }
    Err(ValidationError::new("less then 500"))
}

} // verus!
