//! Replies: the record, its status and its listing under a topic.

use vstd::prelude::*;
use crate::listing::{Listed, fetch_listing, is_listing_of, spec_page};
use crate::status::{STATUS_HIDDEN, is_visible, spec_is_active, spec_is_deleted, spec_is_visible};

pub use crate::status::{StatusAction, VisibleOrderBy, VisibleStyle};

verus! {

/// A reply as stored. `created_at` is in seconds since the epoch.
pub struct ReplyModel {
    pub id: u64,
    pub app_id: u64,
    pub topic_id: u64,
    pub user_id: u64,
    pub content: String,
    pub topped: i64,
    pub created_at: i64,
    pub like_count: u64,
}

/// A reply as shown to readers.
pub struct ReplySimple {
    pub id: u64,
    pub user_id: u64,
    pub content: String,
    pub topped: i64,
    pub created_at: i64,
    pub like_count: u64,
}

impl ReplyModel {
    pub fn to_simple(&self) -> (r: ReplySimple)
        ensures
            r.id == self.id,
            r.user_id == self.user_id,
            r.content@ == self.content@,
            r.topped == self.topped,
            r.created_at == self.created_at,
            r.like_count == self.like_count,
    {
        ReplySimple {
            id: self.id,
            user_id: self.user_id,
            content: self.content.clone(),
            topped: self.topped,
            created_at: self.created_at,
            like_count: self.like_count,
        }
    }

    /// Visible to normal reads: neither hidden nor deleted.
    pub fn is_actived(&self) -> (r: bool)
        ensures
            r == spec_is_active(self.topped),
    {
        self.topped >= 0
    }

    pub fn is_deleted(&self) -> (r: bool)
        ensures
            r == spec_is_deleted(self.topped),
    {
        crate::status::is_deleted(self.topped)
    }
}

impl Default for ReplyModel {
    /// An empty normal reply with no likes and an unset time.
    fn default() -> (r: ReplyModel)
        ensures
            r.id == 0 && r.app_id == 0 && r.topic_id == 0 && r.user_id == 0,
            r.content@.len() == 0,
            r.topped == 0 && r.created_at == 0 && r.like_count == 0,
    {
        ReplyModel {
            id: 0,
            app_id: 0,
            topic_id: 0,
            user_id: 0,
            content: String::new(),
            topped: 0,
            created_at: 0,
            like_count: 0,
        }
    }
}

/// Whether a reply belongs to the listing of topic `topic_id` in `style`.
pub open spec fn spec_reply_listed(r: ReplyModel, topic_id: u64, style: VisibleStyle) -> bool {
    r.topic_id == topic_id && spec_is_visible(style, r.topped)
}

impl Listed for ReplyModel {
    /// Replies are listed per topic; `category` plays no part.
    open spec fn spec_matches(&self, owner: u64, category: u64, style: VisibleStyle) -> bool {
        spec_reply_listed(*self, owner, style)
    }

    fn matches(&self, owner: u64, category: u64, style: VisibleStyle) -> (r: bool) {
        self.topic_id == owner && is_visible(style, self.topped)
    }

    /// Replies are not pinned: newest first.
    open spec fn spec_rank(&self, order_by: VisibleOrderBy) -> (i64, i64) {
        (0, self.created_at)
    }

    fn rank(&self, order_by: VisibleOrderBy) -> (r: (i64, i64)) {
        (0, self.created_at)
    }
}

/// The page of the reply listing of topic `topic_id` in `style`, newest
/// first, that starts at `cursor` and holds at most `count` replies; with
/// the size of the whole listing.
pub fn fetch_more(rows: Vec<ReplyModel>, topic_id: u64, style: VisibleStyle, cursor: u32, count: u32) -> (r:
    (u32, Vec<ReplyModel>))
    requires
        rows@.len() <= u32::MAX,
    ensures
        exists|s: Seq<ReplyModel>|
            {
                &&& is_listing_of(s, rows@, topic_id, 0, style, VisibleOrderBy::CREATE)
                &&& r.0 == s.len()
                &&& r.1@ == spec_page(s, cursor as nat, count as nat)
            },
{
    fetch_listing(rows, topic_id, 0, style, VisibleOrderBy::CREATE, cursor, count)
}

/// A hidden reply of the topic is in the ALL-style listing and not in the
/// NORMAL-style one; a deleted reply is in neither.
pub proof fn law_reply_visibility(
    r: ReplyModel,
    rows: Seq<ReplyModel>,
    topic_id: u64,
    all: Seq<ReplyModel>,
    normal: Seq<ReplyModel>,
)
    requires
        rows.contains(r),
        r.topic_id == topic_id,
        is_listing_of(all, rows, topic_id, 0, VisibleStyle::ALL, VisibleOrderBy::CREATE),
        is_listing_of(normal, rows, topic_id, 0, VisibleStyle::NORMAL, VisibleOrderBy::CREATE),
    ensures
        r.topped == STATUS_HIDDEN ==> all.contains(r) && !normal.contains(r),
        spec_is_deleted(r.topped) ==> !all.contains(r) && !normal.contains(r),
{
    broadcast use vstd::seq_lib::group_to_multiset_ensures;

    assert(rows.to_multiset().count(r) > 0);
    assert(all.to_multiset().count(r) == if spec_reply_listed(r, topic_id, VisibleStyle::ALL) {
        rows.to_multiset().count(r)
    } else {
        0
    });
    assert(normal.to_multiset().count(r) == if spec_reply_listed(r, topic_id, VisibleStyle::NORMAL) {
        rows.to_multiset().count(r)
    } else {
        0
    });
}

} // verus!
