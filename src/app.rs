//! Tenants ("apps"): a public key, a signing secret, a name and an icon.

use vstd::prelude::*;
use crate::base::timestamp;
use crate::user::{clone_opt, opt_view};

verus! {

/// A tenant as stored. `created_at` is in seconds since the epoch.
pub struct AppModel {
    pub id: u64,
    pub app_key: String,
    pub app_secret: String,
    pub name: String,
    pub icon_url: Option<String>,
    pub created_at: i64,
}

/// A tenant as shown to its users: without its secret.
pub struct AppSimple {
    pub id: u64,
    pub app_key: String,
    pub name: String,
    pub icon_url: Option<String>,
}

impl AppModel {
    pub fn to_simple(&self) -> (r: AppSimple)
        ensures
            r.id == self.id,
            r.app_key@ == self.app_key@,
            r.name@ == self.name@,
            opt_view(r.icon_url) == opt_view(self.icon_url),
    {
        AppSimple {
            id: self.id,
            app_key: self.app_key.clone(),
            name: self.name.clone(),
            icon_url: clone_opt(&self.icon_url),
        }
    }
}

impl Default for AppModel {
    fn default() -> (r: AppModel)
        ensures
            r.id == 0 && r.app_key@.len() == 0 && r.app_secret@.len() == 0,
            r.name@.len() == 0 && r.icon_url is None && r.created_at == 0,
    {
        AppModel {
            id: 0,
            app_key: String::new(),
            app_secret: String::new(),
            name: String::new(),
            icon_url: None,
            created_at: 0,
        }
    }
}

pub open spec fn base62_digit(d: int) -> char {
    if d < 10 {
        seq!['0', '1', '2', '3', '4', '5', '6', '7', '8', '9'][d]
    } else if d < 36 {
        seq![
            'A', 'B', 'C', 'D', 'E', 'F', 'G', 'H', 'I', 'J', 'K', 'L', 'M',
            'N', 'O', 'P', 'Q', 'R', 'S', 'T', 'U', 'V', 'W', 'X', 'Y', 'Z',
        ][d - 10]
    } else {
        seq![
            'a', 'b', 'c', 'd', 'e', 'f', 'g', 'h', 'i', 'j', 'k', 'l', 'm',
            'n', 'o', 'p', 'q', 'r', 's', 't', 'u', 'v', 'w', 'x', 'y', 'z',
        ][d - 36]
    }
}

/// The shortest base-62 text of `n`, digits `0-9A-Za-z`.
pub open spec fn spec_base62(n: nat) -> Seq<char>
    decreases n,
{
    if n < 62 {
        seq![base62_digit(n as int)]
    } else {
        spec_base62(n / 62).push(base62_digit((n % 62) as int))
    }
}

/// Relies on `base62::encode`: the shortest base-62 text of `n` in the
/// standard digit order (0 to 9, A to Z, a to z).
#[verifier::external_body]
fn base62_encode(n: u64) -> (r: String)
    ensures
        r@ == spec_base62(n as nat),
{
    base62::encode(n)
}

/// Relies on `rand::random`: a random `u16`. Nothing is known of it.
#[verifier::external_body]
fn random_u16() -> u16 {
    rand::random::<u16>()
}

/// Relies on `uuid::Uuid::new_v4` and its `Display`: a random UUID in its
/// hyphenated form, 36 characters.
#[verifier::external_body]
fn new_uuid() -> (r: String)
    ensures
        r@.len() == 36,
{
    uuid::Uuid::new_v4().to_string()
}

/// A tenant key made of a random number and a time: the base-62 text of
/// `r` followed by that of `ts`.
pub fn build_key_from(r: u16, ts: u64) -> (k: String)
    ensures
        k@ == spec_base62(r as nat) + spec_base62(ts as nat),
{
    let head = base62_encode(r as u64);
    let tail = base62_encode(ts);
    head.concat(tail.as_str())
}

/// A fresh tenant key: a random number and the current time, in base 62.
pub fn build_key() -> (k: String)
    ensures
        exists|r: u16, ts: u64| k@ == spec_base62(r as nat) + spec_base62(ts as nat),
{
    let ts = timestamp() as u64;
    let r = random_u16();
    build_key_from(r, ts)
}

/// A new tenant with a fresh key and a fresh random secret.
pub fn new_app(name: String, icon_url: Option<String>) -> (r: AppModel)
    ensures
        exists|k: u16, ts: u64| r.app_key@ == spec_base62(k as nat) + spec_base62(ts as nat),
        r.app_secret@.len() == 36,
        r.name == name && r.icon_url == icon_url,
        r.id == 0,
{
    AppModel {
        id: 0,
        app_key: build_key(),
        app_secret: new_uuid(),
        name,
        icon_url,
        created_at: 0,
    }
}

} // verus!
