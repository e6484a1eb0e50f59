//! One-way hashes of secrets: the lower-case hex of a SHA-256 digest, and
//! its comparison with a stored hash regardless of ASCII case.

use vstd::prelude::*;
use sha2::Digest;

verus! {

/// The SHA-256 digest of the UTF-8 bytes of a text.
pub uninterp spec fn sha256_of(s: Seq<char>) -> Seq<u8>;

/// Relies on `sha2::Sha256::digest`: the SHA-256 digest of the bytes of
/// `source`, which is 32 bytes long.
#[verifier::external_body]
fn sha256(source: &str) -> (r: Vec<u8>)
    ensures
        r@ == sha256_of(source@),
        r@.len() == 32,
{
    sha2::Sha256::digest(source.as_bytes()).to_vec()
}

pub open spec fn hex_digit(d: int) -> char {
    seq!['0', '1', '2', '3', '4', '5', '6', '7', '8', '9', 'a', 'b', 'c', 'd', 'e', 'f'][d]
}

/// Two lower-case hex digits per byte, high half first.
pub open spec fn spec_lower_hex(b: Seq<u8>) -> Seq<char>
    decreases b.len(),
{
    if b.len() == 0 {
        Seq::empty()
    } else {
        spec_lower_hex(b.drop_last()) + seq![
            hex_digit(b.last() as int / 16),
            hex_digit(b.last() as int % 16),
        ]
    }
}

/// Relies on `base16ct::lower::encode_string`: two lower-case hex digits
/// per byte, high half first. It panics only above `usize::MAX / 2` bytes.
#[verifier::external_body]
fn lower_hex(b: &[u8]) -> (r: String)
    requires
        b@.len() <= usize::MAX / 2,
    ensures
        r@ == spec_lower_hex(b@),
{
    base16ct::lower::encode_string(b)
}

pub open spec fn is_ascii_upper(c: char) -> bool {
    'A' <= c && c <= 'Z'
}

/// Whether two characters are equal once ASCII capitals are lowered.
pub open spec fn same_ignoring_case(a: char, b: char) -> bool {
    ||| a == b
    ||| is_ascii_upper(a) && a as u32 + 32 == b as u32
    ||| is_ascii_upper(b) && b as u32 + 32 == a as u32
}

pub open spec fn spec_eq_ignore_ascii_case(a: Seq<char>, b: Seq<char>) -> bool {
    a.len() == b.len() && forall|i: int| 0 <= i < a.len() ==> same_ignoring_case(#[trigger] a[i], b[i])
}

fn char_eq_ignore_case(a: char, b: char) -> (r: bool)
    ensures
        r == same_ignoring_case(a, b),
{
    if a == b {
        return true;
    }
    if 'A' <= a && a <= 'Z' && (a as u32) + 32 == b as u32 {
        return true;
    }
    'A' <= b && b <= 'Z' && (b as u32) + 32 == a as u32
}

/// Whether two texts are equal once ASCII capitals are lowered.
pub fn eq_ignore_ascii_case(a: &str, b: &str) -> (r: bool)
    ensures
        r == spec_eq_ignore_ascii_case(a@, b@),
{
    let n = a.unicode_len();
    if n != b.unicode_len() {
        return false;
    }
    let mut i: usize = 0;
    while i < n
        invariant
            i <= n,
            n == a@.len() && n == b@.len(),
            forall|k: int| 0 <= k < i ==> same_ignoring_case(#[trigger] a@[k], b@[k]),
        decreases n - i,
    {
        if !char_eq_ignore_case(a.get_char(i), b.get_char(i)) {
            return false;
        }
        i = i + 1;
    }
    true
}

/// The stored form of a secret: the lower-case hex of its SHA-256 digest.
pub fn build_hash(source: &str) -> (r: String)
    ensures
        r@ == spec_lower_hex(sha256_of(source@)),
{
    let digest = sha256(source);
    lower_hex(digest.as_slice())
}

/// Whether `hash` is the hex of `digest`, in either case.
pub fn digest_matches(digest: &[u8], hash: &str) -> (r: bool)
    requires
        digest@.len() <= usize::MAX / 2,
    ensures
        r == spec_eq_ignore_ascii_case(spec_lower_hex(digest@), hash@),
{
    let hex = lower_hex(digest);
    eq_ignore_ascii_case(hex.as_str(), hash)
}

/// Whether `hash` is the stored form of `source`, in either case.
pub fn verify_hash(source: &str, hash: &str) -> (r: bool)
    ensures
        r == spec_eq_ignore_ascii_case(spec_lower_hex(sha256_of(source@)), hash@),
{
    let digest = sha256(source);
    digest_matches(digest.as_slice(), hash)
}

} // verus!
