use doggtalk::base::ArcDataMap;
use doggtalk::counter::UpdateCountOp;
use doggtalk::ledger::myself_from_scores;
use doggtalk::reply::ReplyModel;
use doggtalk::sql::{like_count_sql, reply_count_sql, reply_list_sql, topic_count_sql, topic_list_sql, users_by_ids_sql};
use doggtalk::status::{EntityKind, VisibleOrderBy, VisibleStyle};
use doggtalk::topic::TopicModel;
use doggtalk::user::{sync_login_user, SyncAction, UserModel, UserSimple, SOURCE_SYNC};
use doggtalk::views::{check_viewer_tenant, needs_like_lookup, reply_list_items, topic_list_items, user_map};
use doggtalk::web::ApiErrorCode;

#[test]
fn anonymous_viewers_skip_the_lookup() {
    assert!(!needs_like_lookup(0, 3));
    assert!(!needs_like_lookup(5, 0));
    assert!(needs_like_lookup(5, 3));
    assert!(check_viewer_tenant(4, 0).is_ok());
    assert!(check_viewer_tenant(4, 4).is_ok());
    assert_eq!(check_viewer_tenant(4, 5).err().unwrap().code, ApiErrorCode::NoPermission);
}

#[test]
fn list_items_carry_author_and_like() {
    let users = user_map(vec![UserSimple { id: 7, display_name: "ann".to_string(), ..Default::default() }]);
    let topics = vec![
        TopicModel { id: 1, user_id: 7, ..Default::default() },
        TopicModel { id: 2, user_id: 8, ..Default::default() },
    ];
    let myself = myself_from_scores(&vec![1, 2], &vec![None, Some(3)]);
    let items = topic_list_items(&topics, &users, &myself, 9);
    assert_eq!(items.len(), 2);
    assert_eq!(items[0].user.display_name, "ann");
    assert_eq!(items[1].user.id, 0);
    assert!(!items[0].myself.as_ref().unwrap().is_liked);
    assert!(items[1].myself.as_ref().unwrap().is_liked);
    let anon = topic_list_items(&topics, &users, &ArcDataMap::new(), 0);
    assert!(anon[0].myself.is_none() && anon[1].myself.is_none());
    let replies = vec![ReplyModel { id: 5, user_id: 7, ..Default::default() }];
    let items = reply_list_items(&replies, &users, &ArcDataMap::new(), 9);
    assert_eq!(items[0].reply.id, 5);
    assert!(!items[0].myself.as_ref().unwrap().is_liked);
}

#[test]
fn listing_statements() {
    let q = topic_list_sql(0, VisibleStyle::NORMAL, VisibleOrderBy::CREATE);
    assert_eq!(q.fetch_sql, "select * from dg_topics where app_id=? and topped>=0 order by topped desc,created_at desc limit ?,?");
    assert_eq!(q.count_sql, "select count(*) from dg_topics where app_id=? and topped>=0");
    let q = topic_list_sql(3, VisibleStyle::ALL, VisibleOrderBy::REFRESH);
    assert_eq!(q.fetch_sql, "select * from dg_topics where app_id=? and category=? and topped>-2 order by topped desc,refreshed_at desc limit ?,?");
    let q = reply_list_sql(VisibleStyle::ALL);
    assert_eq!(q.fetch_sql, "select * from dg_replies where topic_id=? and topped>-2 order by created_at desc limit ?,?");
    assert_eq!(q.count_sql, "select count(*) from dg_replies where topic_id=? and topped>-2");
}

#[test]
fn counter_statements() {
    assert_eq!(reply_count_sql(UpdateCountOp::INCR), "update dg_topics set reply_count=reply_count+1,refreshed_at=NOW() where id=?");
    assert_eq!(reply_count_sql(UpdateCountOp::DECR), "update dg_topics set reply_count=reply_count-1 where id=?");
    assert_eq!(topic_count_sql(UpdateCountOp::DECR), "update dg_users set topic_count=topic_count-1 where id=?");
    assert_eq!(like_count_sql(EntityKind::Reply, UpdateCountOp::INCR), "update dg_replies set like_count=like_count+1 where id=?");
    assert_eq!(like_count_sql(EntityKind::Topic, UpdateCountOp::DECR), "update dg_topics set like_count=like_count-1 where id=?");
    assert_eq!(users_by_ids_sql(&vec![3, 14, 159]), "select id,source,display_name,avatar_url,status,gender from dg_users where id in (3,14,159)");
}

#[test]
fn profile_updates() {
    let mut u = UserModel { display_name: "a".to_string(), avatar_url: Some("https://x".to_string()), gender: 1, ..Default::default() };
    assert!(!u.try_update_profile("a".to_string(), None, 1));
    assert_eq!(u.avatar_url.as_deref(), Some("https://x"));
    assert!(!u.try_update_profile("a".to_string(), Some("https://x".to_string()), 1));
    assert!(u.try_update_profile("a".to_string(), Some("https://y".to_string()), 1));
    assert_eq!(u.avatar_url.as_deref(), Some("https://y"));
    assert!(u.try_update_profile("b".to_string(), None, 2));
    assert_eq!((u.display_name.as_str(), u.gender), ("b", 2));
    let mut v = UserModel::default();
    assert!(v.try_update_profile(String::new(), Some("https://z".to_string()), 0));
}

#[test]
fn synced_login_users() {
    let (u, a) = sync_login_user(None, 4, "acc".to_string(), "Ann".to_string(), None, 1);
    assert_eq!(a, SyncAction::Create);
    assert_eq!((u.app_id, u.source, u.account.as_str(), u.gender), (4, SOURCE_SYNC, "acc", 1));
    assert!(u.is_actived());
    let (u, a) = sync_login_user(Some(u), 4, "acc".to_string(), "Ann".to_string(), None, 1);
    assert_eq!(a, SyncAction::Keep);
    let (u, a) = sync_login_user(Some(u), 4, "acc".to_string(), "Bea".to_string(), None, 1);
    assert_eq!(a, SyncAction::Update);
    assert_eq!(u.display_name, "Bea");
}
