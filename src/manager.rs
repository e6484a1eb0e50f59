//! Administrators of the management API, and their login.

use vstd::prelude::*;
use crate::hash::{sha256_of, spec_eq_ignore_ascii_case, spec_lower_hex, verify_hash};
use crate::web::{ApiError, ApiErrorCode, api_error};

verus! {

/// An administrator as stored; `password` holds the hash of the password.
pub struct ManagerModel {
    pub id: u64,
    pub username: String,
    pub password: String,
    pub created_at: i64,
}

impl Default for ManagerModel {
    fn default() -> (r: ManagerModel)
        ensures
            r.id == 0 && r.username@.len() == 0 && r.password@.len() == 0 && r.created_at == 0,
    {
        ManagerModel { id: 0, username: String::new(), password: String::new(), created_at: 0 }
    }
}

/// Whether `password` hashes to the stored hash of `manager`.
pub open spec fn spec_password_matches(manager: ManagerModel, password: Seq<char>) -> bool {
    spec_eq_ignore_ascii_case(spec_lower_hex(sha256_of(password)), manager.password@)
}

/// Decides a login of the administrator found under the given user name,
/// if any: the same error answers an unknown name and a wrong password.
pub fn check_manager_login(manager: &Option<ManagerModel>, password: &str) -> (r: Result<u64, ApiError>)
    ensures
        r is Ok <==> manager is Some && spec_password_matches(manager->Some_0, password@),
        r is Ok ==> r->Ok_0 == manager->Some_0.id,
        r is Err ==> r->Err_0.code == ApiErrorCode::AccountOrPasswordFailed,
{
    match manager {
        None => Err(api_error(ApiErrorCode::AccountOrPasswordFailed)),
        Some(m) => {
            if !verify_hash(password, m.password.as_str()) {
                return Err(api_error(ApiErrorCode::AccountOrPasswordFailed));
            }
            Ok(m.id)
        },
    }
}

} // verus!
