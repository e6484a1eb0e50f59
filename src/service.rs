//! The decisions of the API's actions, apart from the storage round trips
//! between them: who may act on what, what a status action writes, and
//! which counter each change moves.

use vstd::prelude::*;
use crate::counter::UpdateCountOp;
use crate::reply::ReplyModel;
use crate::status::{
    EntityKind, StatusAction, VisibleStyle, apply_status_action, is_active, is_visible, not_found,
    spec_is_active, spec_is_deleted, spec_is_visible, spec_not_found, spec_topped_for,
};
use crate::topic::TopicModel;
use crate::user::{SOURCE_FAKE, STATUS_ACTIVED, UserModel};
use crate::web::{ApiError, ApiErrorCode, api_error};

verus! {

/// An error with no detail text.
pub open spec fn is_plain_error(e: ApiError, code: ApiErrorCode) -> bool {
    e.code == code && e.error@ == "undefined"@
}

/// The tenant named in a request must be the caller's own.
pub fn check_tenant(payload_app_id: u64, claims_app_id: u64) -> (r: Result<(), ApiError>)
    ensures
        r is Ok <==> payload_app_id == claims_app_id,
        r is Err ==> is_plain_error(r->Err_0, ApiErrorCode::NoPermission),
{
    if payload_app_id != claims_app_id {
        return Err(api_error(ApiErrorCode::NoPermission));
    }
    Ok(())
}

/// The acting user must belong to the tenant and be active.
pub fn check_actor(payload_app_id: u64, user: &UserModel) -> (r: Result<(), ApiError>)
    ensures
        r is Ok <==> user.app_id == payload_app_id && user.status >= STATUS_ACTIVED,
        user.app_id != payload_app_id ==> r is Err && is_plain_error(
            r->Err_0,
            ApiErrorCode::NoPermission,
        ),
        user.app_id == payload_app_id && user.status < STATUS_ACTIVED ==> r is Err
            && is_plain_error(r->Err_0, ApiErrorCode::AccountNotActived),
{
    if payload_app_id != user.app_id {
        return Err(api_error(ApiErrorCode::NoPermission));
    }
    if !user.is_actived() {
        return Err(api_error(ApiErrorCode::AccountNotActived));
    }
    Ok(())
}

/// A topic or reply that users act on must belong to the tenant and be
/// active; a hidden or deleted one is not found.
pub fn check_entity(kind: EntityKind, payload_app_id: u64, entity_app_id: u64, topped: i64) -> (r:
    Result<(), ApiError>)
    ensures
        r is Ok <==> entity_app_id == payload_app_id && spec_is_active(topped),
        entity_app_id != payload_app_id ==> r is Err && is_plain_error(
            r->Err_0,
            ApiErrorCode::NoPermission,
        ),
        entity_app_id == payload_app_id && !spec_is_active(topped) ==> r is Err
            && is_plain_error(r->Err_0, spec_not_found(kind)),
{
    if entity_app_id != payload_app_id {
        return Err(api_error(ApiErrorCode::NoPermission));
    }
    if !is_active(topped) {
        return Err(api_error(not_found(kind)));
    }
    Ok(())
}

/// What a status action writes: the new `topped`, and the adjustment of
/// the parent counter (a topic's author's topic count, a reply's topic's
/// reply count), which only a delete moves.
pub struct StatusPlan {
    pub topped: i64,
    pub counter: Option<UpdateCountOp>,
}

/// Decides an administrator's status action on an entity of tenant
/// `entity_app_id` whose value is `topped`, at time `now`.
pub fn plan_status_update(
    kind: EntityKind,
    payload_app_id: u64,
    entity_app_id: u64,
    topped: i64,
    action: StatusAction,
    now: i64,
) -> (r: Result<StatusPlan, ApiError>)
    ensures
        r is Ok <==> entity_app_id == payload_app_id && !spec_is_deleted(topped),
        entity_app_id != payload_app_id ==> r is Err && is_plain_error(
            r->Err_0,
            ApiErrorCode::NoPermission,
        ),
        entity_app_id == payload_app_id && spec_is_deleted(topped) ==> r is Err
            && is_plain_error(r->Err_0, spec_not_found(kind)),
        r is Ok ==> r->Ok_0.topped == spec_topped_for(action, now) && r->Ok_0.counter == (if action
            == StatusAction::DELETE {
            Some(UpdateCountOp::DECR)
        } else {
            None
        }),
{
    if entity_app_id != payload_app_id {
        return Err(api_error(ApiErrorCode::NoPermission));
    }
    let topped = apply_status_action(kind, topped, action, now)?;
    let counter = if action == StatusAction::DELETE {
        Some(UpdateCountOp::DECR)
    } else {
        None
    };
    Ok(StatusPlan { topped, counter })
}

/// An administrator acts only for local users of the tenant.
pub fn check_managed_user(payload_app_id: u64, user: &UserModel) -> (r: Result<(), ApiError>)
    ensures
        r is Ok <==> user.app_id == payload_app_id && user.source == SOURCE_FAKE,
        r is Err ==> is_plain_error(r->Err_0, ApiErrorCode::NoPermission),
{
    if payload_app_id != user.app_id || user.source != SOURCE_FAKE {
        return Err(api_error(ApiErrorCode::NoPermission));
    }
    Ok(())
}

/// A new topic by `author`, normal and without counts, created and
/// refreshed at `now`; the author's topic count grows by one.
pub fn create_topic(author: &mut UserModel, category: u64, title: String, content: String, now: i64) -> (r:
    TopicModel)
    requires
        old(author).topic_count < u64::MAX,
    ensures
        r.app_id == old(author).app_id && r.user_id == old(author).id && r.category == category,
        r.title == title && r.content == content,
        r.topped == 0 && r.reply_count == 0 && r.like_count == 0,
        r.created_at == now && r.refreshed_at == now,
        *final(author) == (UserModel { topic_count: (old(author).topic_count + 1) as u64, ..*old(author) }),
{
    let topic = TopicModel {
        id: 0,
        app_id: author.app_id,
        user_id: author.id,
        category,
        title,
        content,
        topped: 0,
        reply_count: 0,
        like_count: 0,
        created_at: now,
        refreshed_at: now,
    };
    author.update_topic_count(UpdateCountOp::INCR);
    topic
}

/// A new reply by `author` under `topic`, normal, created at `now`; the
/// topic's reply count grows by one and the topic is refreshed at `now`.
pub fn create_reply(topic: &mut TopicModel, author: &UserModel, content: String, now: i64) -> (r:
    ReplyModel)
    requires
        old(topic).reply_count < u64::MAX,
    ensures
        r.app_id == old(topic).app_id && r.topic_id == old(topic).id && r.user_id == author.id,
        r.content == content && r.topped == 0 && r.like_count == 0 && r.created_at == now,
        *final(topic) == (TopicModel {
            reply_count: (old(topic).reply_count + 1) as u64,
            refreshed_at: now,
            ..*old(topic)
        }),
{
    let reply = ReplyModel {
        id: 0,
        app_id: topic.app_id,
        topic_id: topic.id,
        user_id: author.id,
        content,
        topped: 0,
        created_at: now,
        like_count: 0,
    };
    topic.update_reply_count(UpdateCountOp::INCR, now);
    reply
}

/// An administrator's status action on `reply`, whose topic is `topic`. A
/// delete takes one from the topic's reply count, which counts the reply.
pub fn update_reply_status(
    reply: &mut ReplyModel,
    topic: &mut TopicModel,
    payload_app_id: u64,
    action: StatusAction,
    now: i64,
) -> (r: Result<u64, ApiError>)
    requires
        action == StatusAction::DELETE && !spec_is_deleted(old(reply).topped) ==> old(topic).reply_count
            > 0,
    ensures
        r is Ok <==> old(reply).app_id == payload_app_id && !spec_is_deleted(old(reply).topped),
        old(reply).app_id != payload_app_id ==> r is Err && is_plain_error(
            r->Err_0,
            ApiErrorCode::NoPermission,
        ),
        old(reply).app_id == payload_app_id && spec_is_deleted(old(reply).topped) ==> r is Err
            && is_plain_error(r->Err_0, ApiErrorCode::ReplyNotFound),
        r is Err ==> *final(reply) == *old(reply) && *final(topic) == *old(topic),
        r is Ok ==> r->Ok_0 == old(reply).id,
        r is Ok ==> *final(reply) == (ReplyModel { topped: spec_topped_for(action, now), ..*old(reply) }),
        r is Ok && action == StatusAction::DELETE ==> *final(topic) == (TopicModel {
            reply_count: (old(topic).reply_count - 1) as u64,
            ..*old(topic)
        }),
        r is Ok && action != StatusAction::DELETE ==> *final(topic) == *old(topic),
{
    let plan = plan_status_update(EntityKind::Reply, payload_app_id, reply.app_id, reply.topped, action, now)?;
    reply.topped = plan.topped;
    if let Some(op) = plan.counter {
        topic.update_reply_count(op, now);
    }
    Ok(reply.id)
}

/// An administrator's status action on `topic`, whose author is `author`.
/// A delete takes one from the author's topic count, which counts the
/// topic.
pub fn update_topic_status(
    topic: &mut TopicModel,
    author: &mut UserModel,
    payload_app_id: u64,
    action: StatusAction,
    now: i64,
) -> (r: Result<u64, ApiError>)
    requires
        action == StatusAction::DELETE && !spec_is_deleted(old(topic).topped) ==> old(author).topic_count
            > 0,
    ensures
        r is Ok <==> old(topic).app_id == payload_app_id && !spec_is_deleted(old(topic).topped),
        old(topic).app_id != payload_app_id ==> r is Err && is_plain_error(
            r->Err_0,
            ApiErrorCode::NoPermission,
        ),
        old(topic).app_id == payload_app_id && spec_is_deleted(old(topic).topped) ==> r is Err
            && is_plain_error(r->Err_0, ApiErrorCode::TopicNotFound),
        r is Err ==> *final(topic) == *old(topic) && *final(author) == *old(author),
        r is Ok ==> r->Ok_0 == old(topic).id,
        r is Ok ==> *final(topic) == (TopicModel { topped: spec_topped_for(action, now), ..*old(topic) }),
        r is Ok && action == StatusAction::DELETE ==> *final(author) == (UserModel {
            topic_count: (old(author).topic_count - 1) as u64,
            ..*old(author)
        }),
        r is Ok && action != StatusAction::DELETE ==> *final(author) == *old(author),
{
    let plan = plan_status_update(EntityKind::Topic, payload_app_id, topic.app_id, topic.topped, action, now)?;
    topic.topped = plan.topped;
    if let Some(op) = plan.counter {
        author.update_topic_count(op);
    }
    Ok(topic.id)
}

/// A topic or reply read in a listing style must belong to the tenant and
/// be visible in that style; otherwise it is not found.
pub fn check_visible(kind: EntityKind, payload_app_id: u64, entity_app_id: u64, topped: i64, style: VisibleStyle) -> (r:
    Result<(), ApiError>)
    ensures
        r is Ok <==> entity_app_id == payload_app_id && spec_is_visible(style, topped),
        entity_app_id != payload_app_id ==> r is Err && is_plain_error(
            r->Err_0,
            ApiErrorCode::NoPermission,
        ),
        entity_app_id == payload_app_id && !spec_is_visible(style, topped) ==> r is Err
            && is_plain_error(r->Err_0, spec_not_found(kind)),
{
    if entity_app_id != payload_app_id {
        return Err(api_error(ApiErrorCode::NoPermission));
    }
    if !is_visible(style, topped) {
        return Err(api_error(not_found(kind)));
    }
    Ok(())
}

} // verus!
