//! The statements that the relational store runs for listings and counter
//! adjustments. Visibility and ordering rules are the status engine's; a
//! counter moves by one in a single statement, never read then written.

use vstd::prelude::*;
use crate::counter::UpdateCountOp;
use crate::status::{EntityKind, VisibleOrderBy, VisibleStyle};
use crate::text::{decimal, spec_decimal};

verus! {

/// A listing's page query and count query, which share their filter.
/// Their parameters are the owner id, then the category where positive,
/// and, for the page query, the cursor and the page size.
pub struct ListQuery {
    pub fetch_sql: String,
    pub count_sql: String,
}

pub open spec fn spec_style_sql(style: VisibleStyle) -> Seq<char> {
    match style {
        VisibleStyle::NORMAL => " and topped>=0"@,
        VisibleStyle::ALL => " and topped>-2"@,
    }
}

pub open spec fn spec_topic_order_sql(order_by: VisibleOrderBy) -> Seq<char> {
    match order_by {
        VisibleOrderBy::CREATE => "topped desc,created_at desc"@,
        VisibleOrderBy::REFRESH => "topped desc,refreshed_at desc"@,
    }
}

pub open spec fn spec_topic_filter_sql(category: u64, style: VisibleStyle) -> Seq<char> {
    (if category > 0 {
        " and category=?"@
    } else {
        Seq::empty()
    }) + spec_style_sql(style)
}

fn style_sql(style: VisibleStyle) -> (r: &'static str)
    ensures
        r@ == spec_style_sql(style),
{
    match style {
        VisibleStyle::NORMAL => " and topped>=0",
        VisibleStyle::ALL => " and topped>-2",
    }
}

/// The queries of a topic listing of a tenant.
pub fn topic_list_sql(category: u64, style: VisibleStyle, order_by: VisibleOrderBy) -> (r: ListQuery)
    ensures
        r.fetch_sql@ == "select * from dg_topics where app_id=?"@ + spec_topic_filter_sql(
            category,
            style,
        ) + " order by "@ + spec_topic_order_sql(order_by) + " limit ?,?"@,
        r.count_sql@ == "select count(*) from dg_topics where app_id=?"@ + spec_topic_filter_sql(
            category,
            style,
        ),
{
    let mut fetch_sql = String::from_str("select * from dg_topics where app_id=?");
    let mut count_sql = String::from_str("select count(*) from dg_topics where app_id=?");
    if category > 0 {
        fetch_sql.append(" and category=?");
        count_sql.append(" and category=?");
    }
    fetch_sql.append(style_sql(style));
    count_sql.append(style_sql(style));
    fetch_sql.append(" order by ");
    let order = match order_by {
        VisibleOrderBy::CREATE => "topped desc,created_at desc",
        VisibleOrderBy::REFRESH => "topped desc,refreshed_at desc",
    };
    fetch_sql.append(order);
    fetch_sql.append(" limit ?,?");
    proof {
        if category == 0 {
            assert(spec_topic_filter_sql(category, style) =~= spec_style_sql(style));
        }
    }
    ListQuery { fetch_sql, count_sql }
}

/// The queries of the reply listing of a topic, newest first.
pub fn reply_list_sql(style: VisibleStyle) -> (r: ListQuery)
    ensures
        r.fetch_sql@ == "select * from dg_replies where topic_id=?"@ + spec_style_sql(style)
            + " order by created_at desc limit ?,?"@,
        r.count_sql@ == "select count(*) from dg_replies where topic_id=?"@ + spec_style_sql(style),
{
    let mut fetch_sql = String::from_str("select * from dg_replies where topic_id=?");
    let mut count_sql = String::from_str("select count(*) from dg_replies where topic_id=?");
    fetch_sql.append(style_sql(style));
    count_sql.append(style_sql(style));
    fetch_sql.append(" order by created_at desc limit ?,?");
    ListQuery { fetch_sql, count_sql }
}

/// The statement that moves a topic's reply count by one; a new reply also
/// refreshes the topic.
pub fn reply_count_sql(op: UpdateCountOp) -> (r: String)
    ensures
        op == UpdateCountOp::INCR ==> r@ == "update dg_topics set reply_count=reply_count+1,refreshed_at=NOW() where id=?"@,
        op == UpdateCountOp::DECR ==> r@ == "update dg_topics set reply_count=reply_count-1 where id=?"@,
{
    match op {
        UpdateCountOp::INCR => String::from_str(
            "update dg_topics set reply_count=reply_count+1,refreshed_at=NOW() where id=?",
        ),
        UpdateCountOp::DECR => String::from_str(
            "update dg_topics set reply_count=reply_count-1 where id=?",
        ),
    }
}

/// The statement that moves a user's topic count by one.
pub fn topic_count_sql(op: UpdateCountOp) -> (r: String)
    ensures
        op == UpdateCountOp::INCR ==> r@ == "update dg_users set topic_count=topic_count+1 where id=?"@,
        op == UpdateCountOp::DECR ==> r@ == "update dg_users set topic_count=topic_count-1 where id=?"@,
{
    match op {
        UpdateCountOp::INCR => String::from_str("update dg_users set topic_count=topic_count+1 where id=?"),
        UpdateCountOp::DECR => String::from_str("update dg_users set topic_count=topic_count-1 where id=?"),
    }
}

/// The statement that moves the like count of a topic or reply by one.
pub fn like_count_sql(kind: EntityKind, op: UpdateCountOp) -> (r: String)
    ensures
        kind == EntityKind::Topic && op == UpdateCountOp::INCR ==> r@ == "update dg_topics set like_count=like_count+1 where id=?"@,
        kind == EntityKind::Topic && op == UpdateCountOp::DECR ==> r@ == "update dg_topics set like_count=like_count-1 where id=?"@,
        kind == EntityKind::Reply && op == UpdateCountOp::INCR ==> r@ == "update dg_replies set like_count=like_count+1 where id=?"@,
        kind == EntityKind::Reply && op == UpdateCountOp::DECR ==> r@ == "update dg_replies set like_count=like_count-1 where id=?"@,
{
    match (kind, op) {
        (EntityKind::Topic, UpdateCountOp::INCR) => String::from_str("update dg_topics set like_count=like_count+1 where id=?"),
        (EntityKind::Topic, UpdateCountOp::DECR) => String::from_str("update dg_topics set like_count=like_count-1 where id=?"),
        (EntityKind::Reply, UpdateCountOp::INCR) => String::from_str("update dg_replies set like_count=like_count+1 where id=?"),
        (EntityKind::Reply, UpdateCountOp::DECR) => String::from_str("update dg_replies set like_count=like_count-1 where id=?"),
    }
}

/// The decimal ids joined by commas.
pub open spec fn spec_id_list(ids: Seq<u64>) -> Seq<char>
    decreases ids.len(),
{
    if ids.len() == 0 {
        Seq::empty()
    } else if ids.len() == 1 {
        spec_decimal(ids[0] as nat)
    } else {
        spec_id_list(ids.drop_last()) + seq![','] + spec_decimal(ids.last() as nat)
    }
}

/// The query of the public profiles of the given users.
pub fn users_by_ids_sql(ids: &Vec<u64>) -> (r: String)
    ensures
        r@ == "select id,source,display_name,avatar_url,status,gender from dg_users where id in ("@
            + spec_id_list(ids@) + ")"@,
{
    let mut list = String::new();
    let mut i: usize = 0;
    proof {
        reveal_strlit(",");
        assert(ids@.subrange(0, 0) =~= Seq::<u64>::empty());
    }
    while i < ids.len()
        invariant
            i <= ids@.len(),
            list@ == spec_id_list(ids@.subrange(0, i as int)),
        decreases ids@.len() - i,
    {
        let d = decimal(ids[i]);
        if i > 0 {
            list.append(",");
        }
        list.append(d.as_str());
        proof {
            reveal_strlit(",");
            let p = ids@.subrange(0, i + 1);
            assert(p.drop_last() =~= ids@.subrange(0, i as int));
            assert(p.last() == ids@[i as int]);
            if i == 0 {
                assert(list@ =~= spec_decimal(p[0] as nat));
            } else {
                assert(list@ =~= spec_id_list(p.drop_last()) + seq![','] + spec_decimal(p.last() as nat));
            }
        }
        i = i + 1;
    }
    assert(ids@.subrange(0, i as int) =~= ids@);
    let mut out = String::from_str("select id,source,display_name,avatar_url,status,gender from dg_users where id in (");
    out.append(list.as_str());
    out.append(")");
    out
}

/// The queries of a tenant's user listing, newest first; a negative
/// `source` lists users of every source.
pub fn user_list_sql(source: i8) -> (r: ListQuery)
    ensures
        source >= 0 ==> r.fetch_sql@ == "select * from dg_users where app_id=? and source=? order by id desc limit ?,?"@
            && r.count_sql@ == "select count(*) from dg_users where app_id=? and source=?"@,
        source < 0 ==> r.fetch_sql@ == "select * from dg_users where app_id=? order by id desc limit ?,?"@
            && r.count_sql@ == "select count(*) from dg_users where app_id=?"@,
{
    if source >= 0 {
        ListQuery {
            fetch_sql: String::from_str("select * from dg_users where app_id=? and source=? order by id desc limit ?,?"),
            count_sql: String::from_str("select count(*) from dg_users where app_id=? and source=?"),
        }
    } else {
        ListQuery {
            fetch_sql: String::from_str("select * from dg_users where app_id=? order by id desc limit ?,?"),
            count_sql: String::from_str("select count(*) from dg_users where app_id=?"),
        }
    }
}

} // verus!
