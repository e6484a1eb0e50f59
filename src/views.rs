//! What list and detail reads hand back: each topic or reply with its
//! author's public profile and, for a signed-in viewer, whether the viewer
//! likes it. An anonymous viewer gets no like data and causes no lookup.

use vstd::prelude::*;
use std::sync::Arc;
use crate::base::ArcDataMap;
use crate::ledger::MySelfData;
use crate::reply::{ReplyModel, ReplySimple};
use crate::topic::{TopicModel, TopicSimple};
use crate::user::UserSimple;
use crate::web::{ApiError, ApiErrorCode, api_error};

verus! {

broadcast use vstd::std_specs::hash::group_hash_axioms;

pub struct TopicListItem {
    pub topic: TopicSimple,
    pub user: Arc<UserSimple>,
    pub myself: Option<Arc<MySelfData>>,
}

pub struct ReplyListItem {
    pub reply: ReplySimple,
    pub user: Arc<UserSimple>,
    pub myself: Option<Arc<MySelfData>>,
}

/// Whether a page needs the batched like lookup: only for a signed-in
/// viewer (a positive user id) and a page that is not empty.
pub fn needs_like_lookup(viewer_id: u64, item_count: usize) -> (r: bool)
    ensures
        r == (viewer_id > 0 && item_count > 0),
{
    viewer_id > 0 && item_count > 0
}

/// A signed-in viewer reads only the tenant of its token; an anonymous one
/// (tenant 0) reads any.
pub fn check_viewer_tenant(payload_app_id: u64, claims_app_id: u64) -> (r: Result<(), ApiError>)
    ensures
        r is Ok <==> claims_app_id == 0 || payload_app_id == claims_app_id,
        r is Err ==> r->Err_0.code == ApiErrorCode::NoPermission,
{
    if claims_app_id != 0 && payload_app_id != claims_app_id {
        return Err(api_error(ApiErrorCode::NoPermission));
    }
    Ok(())
}

/// The public profiles found, by user id.
pub fn user_map(rows: Vec<UserSimple>) -> (r: ArcDataMap<u64, UserSimple>)
    ensures
        forall|id: u64| #[trigger]
            r@.contains_key(id) <==> exists|i: int| 0 <= i < rows@.len() && rows@[i].id == id,
        forall|id: u64| #[trigger] r@.contains_key(id) ==> r@[id].id == id,
{
    let ghost all = rows@;
    let mut rest = rows;
    let mut out: ArcDataMap<u64, UserSimple> = ArcDataMap::new();
    while rest.len() > 0
        invariant
            rest@ == all.subrange(0, rest@.len() as int),
            rest@.len() <= all.len(),
            forall|id: u64| #[trigger]
                out@.contains_key(id) <==> exists|i: int|
                    rest@.len() <= i < all.len() && all[i].id == id,
            forall|id: u64| #[trigger] out@.contains_key(id) ==> out@[id].id == id,
        decreases rest@.len(),
    {
        let n = rest.len();
        let u = rest.pop().unwrap();
        assert(u == all[n - 1]);
        assert(rest@ =~= all.subrange(0, rest@.len() as int));
        let id = u.id;
        out.insert(id, u);
        assert forall|x: u64| #[trigger]
            out@.contains_key(x) <==> exists|i: int| rest@.len() <= i < all.len() && all[i].id == x by {
            if x == id {
                assert(all[n - 1].id == x);
            }
        }
    }
    out
}

/// The like data of an item for `viewer_id`: none for an anonymous viewer,
/// else the looked-up entry.
fn myself_of(myself: &ArcDataMap<u64, MySelfData>, viewer_id: u64, id: u64) -> (r: Option<Arc<MySelfData>>)
    ensures
        viewer_id == 0 ==> r is None,
        viewer_id > 0 ==> r is Some && (myself@.contains_key(id) ==> *r->Some_0 == myself@[id])
            && (!myself@.contains_key(id) ==> !r->Some_0.is_liked),
{
    if viewer_id > 0 {
        Some(myself.get(id))
    } else {
        None
    }
}

/// The items of a topic page, in page order.
pub fn topic_list_items(
    topics: &Vec<TopicModel>,
    users: &ArcDataMap<u64, UserSimple>,
    myself: &ArcDataMap<u64, MySelfData>,
    viewer_id: u64,
) -> (r: Vec<TopicListItem>)
    ensures
        r@.len() == topics@.len(),
        forall|i: int| 0 <= i < r@.len() ==> {
            let t = topics@[i];
            let item = #[trigger] r@[i];
            &&& item.topic.id == t.id && item.topic.topped == t.topped
            &&& item.topic.like_count == t.like_count && item.topic.reply_count == t.reply_count
            &&& (users@.contains_key(t.user_id) ==> *item.user == users@[t.user_id])
            &&& (viewer_id == 0 <==> item.myself is None)
            &&& (viewer_id > 0 && myself@.contains_key(t.id) ==> *item.myself->Some_0 == myself@[t.id])
            &&& (viewer_id > 0 && !myself@.contains_key(t.id) ==> !item.myself->Some_0.is_liked)
        },
{
    let mut out: Vec<TopicListItem> = Vec::new();
    let mut i: usize = 0;
    while i < topics.len()
        invariant
            i <= topics@.len(),
            out@.len() == i,
            forall|k: int| 0 <= k < i ==> {
                let t = topics@[k];
                let item = #[trigger] out@[k];
                &&& item.topic.id == t.id && item.topic.topped == t.topped
                &&& item.topic.like_count == t.like_count && item.topic.reply_count == t.reply_count
                &&& (users@.contains_key(t.user_id) ==> *item.user == users@[t.user_id])
                &&& (viewer_id == 0 <==> item.myself is None)
                &&& (viewer_id > 0 && myself@.contains_key(t.id) ==> *item.myself->Some_0
                    == myself@[t.id])
                &&& (viewer_id > 0 && !myself@.contains_key(t.id) ==> !item.myself->Some_0.is_liked)
            },
        decreases topics@.len() - i,
    {
        let t = &topics[i];
        let item = TopicListItem {
            topic: t.to_simple(),
            user: users.get(t.user_id),
            myself: myself_of(myself, viewer_id, t.id),
        };
        out.push(item);
        i = i + 1;
    }
    out
}

/// The items of a reply page, in page order.
pub fn reply_list_items(
    replies: &Vec<ReplyModel>,
    users: &ArcDataMap<u64, UserSimple>,
    myself: &ArcDataMap<u64, MySelfData>,
    viewer_id: u64,
) -> (r: Vec<ReplyListItem>)
    ensures
        r@.len() == replies@.len(),
        forall|i: int| 0 <= i < r@.len() ==> {
            let t = replies@[i];
            let item = #[trigger] r@[i];
            &&& item.reply.id == t.id && item.reply.topped == t.topped
            &&& item.reply.like_count == t.like_count
            &&& (users@.contains_key(t.user_id) ==> *item.user == users@[t.user_id])
            &&& (viewer_id == 0 <==> item.myself is None)
            &&& (viewer_id > 0 && myself@.contains_key(t.id) ==> *item.myself->Some_0 == myself@[t.id])
            &&& (viewer_id > 0 && !myself@.contains_key(t.id) ==> !item.myself->Some_0.is_liked)
        },
{
    let mut out: Vec<ReplyListItem> = Vec::new();
    let mut i: usize = 0;
    while i < replies.len()
        invariant
            i <= replies@.len(),
            out@.len() == i,
            forall|k: int| 0 <= k < i ==> {
                let t = replies@[k];
                let item = #[trigger] out@[k];
                &&& item.reply.id == t.id && item.reply.topped == t.topped
                &&& item.reply.like_count == t.like_count
                &&& (users@.contains_key(t.user_id) ==> *item.user == users@[t.user_id])
                &&& (viewer_id == 0 <==> item.myself is None)
                &&& (viewer_id > 0 && myself@.contains_key(t.id) ==> *item.myself->Some_0
                    == myself@[t.id])
                &&& (viewer_id > 0 && !myself@.contains_key(t.id) ==> !item.myself->Some_0.is_liked)
            },
        decreases replies@.len() - i,
    {
        let t = &replies[i];
        let item = ReplyListItem {
            reply: t.to_simple(),
            user: users.get(t.user_id),
            myself: myself_of(myself, viewer_id, t.id),
        };
        out.push(item);
        i = i + 1;
    }
    out
}

} // verus!
