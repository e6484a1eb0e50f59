//! Users of a tenant: synced from the tenant's own accounts or created
//! locally, pending or active.

use vstd::prelude::*;
use crate::counter::{UpdateCountOp, adjust_count, can_adjust, spec_adjust};
use crate::hash::{sha256_of, spec_eq_ignore_ascii_case, spec_lower_hex, verify_hash};
use crate::text::{decimal, spec_decimal};
use crate::web::{ApiError, ApiErrorCode, api_error};

verus! {

/// A user created locally by an administrator.
pub const SOURCE_FAKE: i8 = 0;

/// A user synced from the tenant's own accounts.
pub const SOURCE_SYNC: i8 = 1;

pub const STATUS_PENDING: i8 = 0;

pub const STATUS_ACTIVED: i8 = 1;

/// A user as stored. `created_at` is in seconds since the epoch.
pub struct UserModel {
    pub id: u64,
    pub app_id: u64,
    pub source: i8,
    pub account: String,
    pub display_name: String,
    pub avatar_url: Option<String>,
    pub gender: i8,
    pub status: i8,
    pub created_at: i64,
    pub topic_count: u64,
}

/// A user as shown beside topics and replies.
pub struct UserSimple {
    pub id: u64,
    pub source: i8,
    pub display_name: String,
    pub avatar_url: Option<String>,
    pub status: i8,
    pub gender: i8,
}

/// The text of an optional string.
pub open spec fn opt_view(o: Option<String>) -> Option<Seq<char>> {
    match o {
        Some(s) => Some(s@),
        None => None,
    }
}

pub fn clone_opt(o: &Option<String>) -> (r: Option<String>)
    ensures
        opt_view(r) == opt_view(*o),
{
    match o {
        Some(s) => Some(s.clone()),
        None => None,
    }
}

impl UserModel {
    pub fn to_simple(&self) -> (r: UserSimple)
        ensures
            r.id == self.id,
            r.source == self.source,
            r.display_name@ == self.display_name@,
            opt_view(r.avatar_url) == opt_view(self.avatar_url),
            r.status == self.status,
            r.gender == self.gender,
    {
        UserSimple {
            id: self.id,
            source: self.source,
            display_name: self.display_name.clone(),
            avatar_url: clone_opt(&self.avatar_url),
            status: self.status,
            gender: self.gender,
        }
    }

    pub fn is_actived(&self) -> (r: bool)
        ensures
            r == (self.status >= STATUS_ACTIVED),
    {
        self.status >= STATUS_ACTIVED
    }

    /// Takes the given profile: the name and gender always, the avatar only
    /// where one is given. Answers whether anything changed.
    pub fn try_update_profile(&mut self, display_name: String, avatar_url: Option<String>, gender: i8) -> (modified: bool)
        ensures
            final(self).display_name@ == display_name@,
            final(self).gender == gender,
            avatar_url is Some ==> opt_view(final(self).avatar_url) == opt_view(avatar_url),
            avatar_url is None ==> final(self).avatar_url == old(self).avatar_url,
            modified == (old(self).display_name@ != display_name@ || (avatar_url is Some
                && opt_view(old(self).avatar_url) != opt_view(avatar_url)) || old(self).gender
                != gender),
            final(self).id == old(self).id,
            final(self).app_id == old(self).app_id,
            final(self).source == old(self).source,
            final(self).account == old(self).account,
            final(self).status == old(self).status,
            final(self).created_at == old(self).created_at,
            final(self).topic_count == old(self).topic_count,
    {
        let mut modified = false;
        if !self.display_name.eq(&display_name) {
            modified = true;
            self.display_name = display_name;
        }
        if avatar_url.is_some() {
            let differs = match (&self.avatar_url, &avatar_url) {
                (Some(a), Some(b)) => !a.eq(b),
                _ => true,
            };
            if differs {
                modified = true;
                self.avatar_url = avatar_url;
            }
        }
        if self.gender != gender {
            modified = true;
            self.gender = gender;
        }
        modified
    }

    /// One topic more or less by this user.
    pub fn update_topic_count(&mut self, op: UpdateCountOp)
        requires
            can_adjust(old(self).topic_count, op),
        ensures
            final(self).topic_count == spec_adjust(old(self).topic_count as nat, op),
            *final(self) == (UserModel { topic_count: final(self).topic_count, ..*old(self) }),
    {
        self.topic_count = adjust_count(self.topic_count, op);
    }
}

impl Default for UserModel {
    /// An active synced user with an empty profile.
    fn default() -> (r: UserModel)
        ensures
            r.id == 0 && r.app_id == 0 && r.source == SOURCE_SYNC,
            r.account@.len() == 0 && r.display_name@.len() == 0 && r.avatar_url is None,
            r.status == STATUS_ACTIVED && r.gender == 0,
            r.created_at == 0 && r.topic_count == 0,
    {
        UserModel {
            id: 0,
            app_id: 0,
            source: SOURCE_SYNC,
            account: String::new(),
            display_name: String::new(),
            avatar_url: None,
            gender: 0,
            status: STATUS_ACTIVED,
            created_at: 0,
            topic_count: 0,
        }
    }
}

impl Default for UserSimple {
    /// The stand-in for a user that cannot be found: pending, local, empty.
    fn default() -> (r: UserSimple)
        ensures
            r.id == 0 && r.source == SOURCE_FAKE && r.display_name@.len() == 0,
            r.avatar_url is None && r.status == STATUS_PENDING && r.gender == 0,
    {
        UserSimple {
            id: 0,
            source: SOURCE_FAKE,
            display_name: String::new(),
            avatar_url: None,
            status: STATUS_PENDING,
            gender: 0,
        }
    }
}

/// The text that a tenant signs to vouch for one of its accounts: the
/// tenant id, the secret, the account, the secret again.
pub open spec fn spec_sign_text(app_id: u64, app_secret: Seq<char>, account: Seq<char>) -> Seq<char> {
    spec_decimal(app_id as nat) + app_secret + account + app_secret
}

pub fn sign_text(app_id: u64, app_secret: &str, account: &str) -> (r: String)
    ensures
        r@ == spec_sign_text(app_id, app_secret@, account@),
{
    let mut out = decimal(app_id);
    out.append(app_secret);
    out.append(account);
    out.append(app_secret);
    out
}

/// Accepts a synced login whose `safe_sign` is the hash of the sign text.
pub fn check_sync_sign(app_id: u64, app_secret: &str, account: &str, safe_sign: &str) -> (r: Result<(), ApiError>)
    ensures
        r is Ok <==> spec_eq_ignore_ascii_case(
            spec_lower_hex(sha256_of(spec_sign_text(app_id, app_secret@, account@))),
            safe_sign@,
        ),
        r is Err ==> r->Err_0.code == ApiErrorCode::InvalidSign,
{
    let text = sign_text(app_id, app_secret, account);
    if !verify_hash(text.as_str(), safe_sign) {
        return Err(api_error(ApiErrorCode::InvalidSign));
    }
    Ok(())
}

/// What a synced login does to the store.
#[derive(PartialEq, Eq, Structural, Clone, Copy, Debug)]
pub enum SyncAction {
    /// The account is new: insert the user.
    Create,
    /// The profile changed: write it.
    Update,
    /// Nothing to write.
    Keep,
}

/// The user that a synced login of `account` into tenant `app_id` ends
/// with: the existing user with the given profile taken over, or a new
/// active synced user; and what to write.
pub fn sync_login_user(
    existing: Option<UserModel>,
    app_id: u64,
    account: String,
    display_name: String,
    avatar_url: Option<String>,
    gender: i8,
) -> (r: (UserModel, SyncAction))
    ensures
        existing is None ==> {
            &&& r.1 == SyncAction::Create
            &&& r.0.app_id == app_id && r.0.source == SOURCE_SYNC && r.0.account == account
            &&& r.0.display_name == display_name && r.0.avatar_url == avatar_url
            &&& r.0.gender == gender && r.0.status == STATUS_ACTIVED && r.0.topic_count == 0
        },
        existing is Some ==> {
            let old_user = existing->Some_0;
            &&& r.0.id == old_user.id && r.0.app_id == old_user.app_id
            &&& r.0.display_name@ == display_name@ && r.0.gender == gender
            &&& avatar_url is Some ==> opt_view(r.0.avatar_url) == opt_view(avatar_url)
            &&& avatar_url is None ==> r.0.avatar_url == old_user.avatar_url
            &&& (r.1 == SyncAction::Update) == (old_user.display_name@ != display_name@ || (
            avatar_url is Some && opt_view(old_user.avatar_url) != opt_view(avatar_url))
                || old_user.gender != gender)
            &&& r.1 != SyncAction::Create
            &&& r.0.account == old_user.account && r.0.source == old_user.source
            &&& r.0.status == old_user.status && r.0.topic_count == old_user.topic_count
            &&& r.0.created_at == old_user.created_at
        },
{
    match existing {
        None => {
            let user = UserModel {
                id: 0,
                app_id,
                source: SOURCE_SYNC,
                account,
                display_name,
                avatar_url,
                gender,
                status: STATUS_ACTIVED,
                created_at: 0,
                topic_count: 0,
            };
            (user, SyncAction::Create)
        },
        Some(u) => {
            let mut user = u;
            if user.try_update_profile(display_name, avatar_url, gender) {
                (user, SyncAction::Update)
            } else {
                (user, SyncAction::Keep)
            }
        },
    }
}

} // verus!
