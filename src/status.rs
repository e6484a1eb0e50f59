//! The status engine: the overloaded `topped` field of topics and replies,
//! the actions that change it, and the visibility rules of every read.
//!
//! `topped <= -2` is deleted (terminal), `-1` hidden, `0` normal, and a
//! positive value is the pin time, which listings sort on first.

use vstd::prelude::*;
use crate::web::{ApiErrorCode, ApiError, api_error};

verus! {

/// `topped` of a hidden entity.
pub const STATUS_HIDDEN: i64 = -1;

/// `topped` written by a delete; every value at or below it is deleted.
pub const STATUS_DELETE: i64 = -2;

/// An action of the status protocol.
#[derive(PartialEq, Eq, Structural, Clone, Copy, Debug)]
pub enum StatusAction {
    RESET,
    MOVEUP,
    HIDDEN,
    DELETE,
}

/// Which entities a listing shows: ALL hides only deleted ones, NORMAL
/// shows only active ones.
#[derive(PartialEq, Eq, Structural, Clone, Copy, Debug)]
pub enum VisibleStyle {
    ALL,
    NORMAL,
}

/// The secondary sort key of a pinned-first topic listing.
#[derive(PartialEq, Eq, Structural, Clone, Copy, Debug)]
pub enum VisibleOrderBy {
    CREATE,
    REFRESH,
}

/// The kind of entity that carries a `topped` field.
#[derive(PartialEq, Eq, Structural, Clone, Copy, Debug)]
pub enum EntityKind {
    Topic,
    Reply,
}

pub open spec fn spec_is_active(topped: i64) -> bool {
    topped >= 0
}

pub open spec fn spec_is_deleted(topped: i64) -> bool {
    topped <= STATUS_DELETE
}

pub open spec fn spec_is_visible(style: VisibleStyle, topped: i64) -> bool {
    match style {
        VisibleStyle::ALL => topped > STATUS_DELETE,
        VisibleStyle::NORMAL => topped >= 0,
    }
}

/// The `topped` value that an action writes; `now` is the time in seconds.
pub open spec fn spec_topped_for(action: StatusAction, now: i64) -> i64 {
    match action {
        StatusAction::RESET => 0,
        StatusAction::MOVEUP => now,
        StatusAction::HIDDEN => STATUS_HIDDEN,
        StatusAction::DELETE => STATUS_DELETE,
    }
}

pub open spec fn spec_not_found(kind: EntityKind) -> ApiErrorCode {
    match kind {
        EntityKind::Topic => ApiErrorCode::TopicNotFound,
        EntityKind::Reply => ApiErrorCode::ReplyNotFound,
    }
}

pub fn is_active(topped: i64) -> (r: bool)
    ensures
        r == spec_is_active(topped),
{
    topped >= 0
}

pub fn is_deleted(topped: i64) -> (r: bool)
    ensures
        r == spec_is_deleted(topped),
{
    topped <= STATUS_DELETE
}

/// Whether an entity with this `topped` appears in a listing of this style.
pub fn is_visible(style: VisibleStyle, topped: i64) -> (r: bool)
    ensures
        r == spec_is_visible(style, topped),
{
    match style {
        VisibleStyle::ALL => topped > STATUS_DELETE,
        VisibleStyle::NORMAL => topped >= 0,
    }
}

/// The `topped` value that `action` writes at time `now`.
pub fn topped_for(action: StatusAction, now: i64) -> (r: i64)
    ensures
        r == spec_topped_for(action, now),
{
    match action {
        StatusAction::RESET => 0,
        StatusAction::MOVEUP => now,
        StatusAction::HIDDEN => STATUS_HIDDEN,
        StatusAction::DELETE => STATUS_DELETE,
    }
}

pub fn not_found(kind: EntityKind) -> (r: ApiErrorCode)
    ensures
        r == spec_not_found(kind),
{
    match kind {
        EntityKind::Topic => ApiErrorCode::TopicNotFound,
        EntityKind::Reply => ApiErrorCode::ReplyNotFound,
    }
}

/// Applies a status action to an entity whose current value is `topped`.
/// A deleted entity is not found; from any other state every action is
/// allowed.
pub fn apply_status_action(kind: EntityKind, topped: i64, action: StatusAction, now: i64) -> (r:
    Result<i64, ApiError>)
    ensures
        spec_is_deleted(topped) <==> r is Err,
        r is Ok ==> r->Ok_0 == spec_topped_for(action, now),
        r is Err ==> r->Err_0.code == spec_not_found(kind) && r->Err_0.error@ == "undefined"@,
{
    if is_deleted(topped) {
        return Err(api_error(not_found(kind)));
    }
    Ok(topped_for(action, now))
}

/// Once an entity is deleted, every later status action is refused as not
/// found, and no listing style shows it.
pub proof fn law_delete_is_terminal(now: i64)
    ensures
        ({
            let t = spec_topped_for(StatusAction::DELETE, now);
            &&& spec_is_deleted(t)
            &&& !spec_is_visible(VisibleStyle::ALL, t)
            &&& !spec_is_visible(VisibleStyle::NORMAL, t)
        }),
{
}

/// A hidden entity shows in ALL-style listings and not in NORMAL-style
/// ones; a deleted one shows in neither.
pub proof fn law_visibility(topped: i64)
    ensures
        topped == STATUS_HIDDEN ==> spec_is_visible(VisibleStyle::ALL, topped) && !spec_is_visible(
            VisibleStyle::NORMAL,
            topped,
        ),
        spec_is_deleted(topped) ==> !spec_is_visible(VisibleStyle::ALL, topped) && !spec_is_visible(
            VisibleStyle::NORMAL,
            topped,
        ),
{
}

} // verus!
