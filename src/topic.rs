//! Topics: the record, its status and counters, and its listings.

use vstd::prelude::*;
use crate::counter::{UpdateCountOp, adjust_count, can_adjust, spec_adjust};
use crate::listing::{Listed, fetch_listing, is_listing_of, spec_page};
use crate::status::{STATUS_HIDDEN, is_visible, spec_is_active, spec_is_deleted, spec_is_visible};

pub use crate::status::{StatusAction, VisibleOrderBy, VisibleStyle};

verus! {

/// A topic as stored. Times are seconds since the epoch.
pub struct TopicModel {
    pub id: u64,
    pub app_id: u64,
    pub user_id: u64,
    pub category: u64,
    pub title: String,
    pub content: String,
    pub topped: i64,
    pub reply_count: u64,
    pub like_count: u64,
    pub created_at: i64,
    pub refreshed_at: i64,
}

/// A topic as shown to readers: the record without its tenant.
pub struct TopicSimple {
    pub id: u64,
    pub user_id: u64,
    pub category: u64,
    pub title: String,
    pub content: String,
    pub topped: i64,
    pub reply_count: u64,
    pub like_count: u64,
    pub created_at: i64,
    pub refreshed_at: i64,
}

impl TopicModel {
    pub fn to_simple(&self) -> (r: TopicSimple)
        ensures
            r.id == self.id,
            r.user_id == self.user_id,
            r.category == self.category,
            r.title@ == self.title@,
            r.content@ == self.content@,
            r.topped == self.topped,
            r.reply_count == self.reply_count,
            r.like_count == self.like_count,
            r.created_at == self.created_at,
            r.refreshed_at == self.refreshed_at,
    {
        TopicSimple {
            id: self.id,
            user_id: self.user_id,
            category: self.category,
            title: self.title.clone(),
            content: self.content.clone(),
            topped: self.topped,
            reply_count: self.reply_count,
            like_count: self.like_count,
            created_at: self.created_at,
            refreshed_at: self.refreshed_at,
        }
    }

    /// Visible to normal reads: neither hidden nor deleted.
    pub fn is_actived(&self) -> (r: bool)
        ensures
            r == spec_is_active(self.topped),
    {
        self.topped >= 0
    }

    pub fn is_deleted(&self) -> (r: bool)
        ensures
            r == spec_is_deleted(self.topped),
    {
        crate::status::is_deleted(self.topped)
    }

    /// One reply more or less. A new reply also bumps `refreshed_at` to
    /// `now`; a removed one leaves it.
    pub fn update_reply_count(&mut self, op: UpdateCountOp, now: i64)
        requires
            can_adjust(old(self).reply_count, op),
        ensures
            final(self).reply_count == spec_adjust(old(self).reply_count as nat, op),
            final(self).refreshed_at == (if op == UpdateCountOp::INCR {
                now
            } else {
                old(self).refreshed_at
            }),
            final(self).id == old(self).id,
            final(self).app_id == old(self).app_id,
            final(self).user_id == old(self).user_id,
            final(self).category == old(self).category,
            final(self).title == old(self).title,
            final(self).content == old(self).content,
            final(self).topped == old(self).topped,
            final(self).like_count == old(self).like_count,
            final(self).created_at == old(self).created_at,
    {
        self.reply_count = adjust_count(self.reply_count, op);
        if op == UpdateCountOp::INCR {
            self.refreshed_at = now;
        }
    }
}

impl Default for TopicModel {
    /// An empty normal topic with no counts and unset times.
    fn default() -> (r: TopicModel)
        ensures
            r.id == 0 && r.app_id == 0 && r.user_id == 0 && r.category == 0,
            r.title@.len() == 0 && r.content@.len() == 0,
            r.topped == 0 && r.reply_count == 0 && r.like_count == 0,
            r.created_at == 0 && r.refreshed_at == 0,
    {
        TopicModel {
            id: 0,
            app_id: 0,
            user_id: 0,
            category: 0,
            title: String::new(),
            content: String::new(),
            topped: 0,
            reply_count: 0,
            like_count: 0,
            created_at: 0,
            refreshed_at: 0,
        }
    }
}

pub open spec fn spec_topic_rank(t: TopicModel, order_by: VisibleOrderBy) -> (i64, i64) {
    match order_by {
        VisibleOrderBy::CREATE => (t.topped, t.created_at),
        VisibleOrderBy::REFRESH => (t.topped, t.refreshed_at),
    }
}

/// Whether a topic belongs to the listing of tenant `app_id`, of
/// `category` where that is positive, in `style`.
pub open spec fn spec_topic_listed(t: TopicModel, app_id: u64, category: u64, style: VisibleStyle) -> bool {
    &&& t.app_id == app_id
    &&& (category > 0 ==> t.category == category)
    &&& spec_is_visible(style, t.topped)
}

impl Listed for TopicModel {
    open spec fn spec_matches(&self, owner: u64, category: u64, style: VisibleStyle) -> bool {
        spec_topic_listed(*self, owner, category, style)
    }

    fn matches(&self, owner: u64, category: u64, style: VisibleStyle) -> (r: bool) {
        self.app_id == owner && (category == 0 || self.category == category) && is_visible(
            style,
            self.topped,
        )
    }

    /// Pinned first, most recent pin first; then by the chosen time, latest
    /// first.
    open spec fn spec_rank(&self, order_by: VisibleOrderBy) -> (i64, i64) {
        spec_topic_rank(*self, order_by)
    }

    fn rank(&self, order_by: VisibleOrderBy) -> (r: (i64, i64)) {
        match order_by {
            VisibleOrderBy::CREATE => (self.topped, self.created_at),
            VisibleOrderBy::REFRESH => (self.topped, self.refreshed_at),
        }
    }
}

/// The page of the topic listing of tenant `app_id` (and `category`, where
/// positive) in `style`, pinned first, that starts at `cursor` and holds at
/// most `count` topics; with the size of the whole listing.
pub fn fetch_more(
    rows: Vec<TopicModel>,
    app_id: u64,
    category: u64,
    style: VisibleStyle,
    order_by: VisibleOrderBy,
    cursor: u32,
    count: u32,
) -> (r: (u32, Vec<TopicModel>))
    requires
        rows@.len() <= u32::MAX,
    ensures
        exists|s: Seq<TopicModel>|
            {
                &&& is_listing_of(s, rows@, app_id, category, style, order_by)
                &&& r.0 == s.len()
                &&& r.1@ == spec_page(s, cursor as nat, count as nat)
            },
{
    fetch_listing(rows, app_id, category, style, order_by, cursor, count)
}

/// A hidden topic of the tenant (and category) is in the ALL-style
/// listing and not in the NORMAL-style one; a deleted topic is in neither.
pub proof fn law_topic_visibility(
    t: TopicModel,
    rows: Seq<TopicModel>,
    app_id: u64,
    category: u64,
    order_by: VisibleOrderBy,
    all: Seq<TopicModel>,
    normal: Seq<TopicModel>,
)
    requires
        rows.contains(t),
        t.app_id == app_id,
        category > 0 ==> t.category == category,
        is_listing_of(all, rows, app_id, category, VisibleStyle::ALL, order_by),
        is_listing_of(normal, rows, app_id, category, VisibleStyle::NORMAL, order_by),
    ensures
        t.topped == STATUS_HIDDEN ==> all.contains(t) && !normal.contains(t),
        spec_is_deleted(t.topped) ==> !all.contains(t) && !normal.contains(t),
{
    broadcast use vstd::seq_lib::group_to_multiset_ensures;

    assert(rows.to_multiset().count(t) > 0);
    assert(all.to_multiset().count(t) == if spec_topic_listed(t, app_id, category, VisibleStyle::ALL) {
        rows.to_multiset().count(t)
    } else {
        0
    });
    assert(normal.to_multiset().count(t) == if spec_topic_listed(t, app_id, category, VisibleStyle::NORMAL) {
        rows.to_multiset().count(t)
    } else {
        0
    });
}

} // verus!
