use doggtalk::reply::ReplyModel;
use doggtalk::service::{
    check_actor, check_entity, check_managed_user, check_tenant, create_reply, create_topic,
    plan_status_update, update_reply_status, update_topic_status,
};
use doggtalk::status::{apply_status_action, is_visible, topped_for, EntityKind};
use doggtalk::counter::{adjust_count, UpdateCountOp};
use doggtalk::topic::{fetch_more, StatusAction, TopicModel, VisibleOrderBy, VisibleStyle};
use doggtalk::user::{UserModel, SOURCE_FAKE, STATUS_PENDING};
use doggtalk::web::ApiErrorCode;

fn topic(id: u64, topped: i64, created_at: i64) -> TopicModel {
    TopicModel {
        id,
        app_id: 1,
        topped,
        created_at,
        refreshed_at: created_at,
        ..Default::default()
    }
}

fn ids(v: &[TopicModel]) -> Vec<u64> {
    v.iter().map(|t| t.id).collect()
}

#[test]
fn actions_write_their_values() {
    assert_eq!(topped_for(StatusAction::RESET, 99), 0);
    assert_eq!(topped_for(StatusAction::MOVEUP, 99), 99);
    assert_eq!(topped_for(StatusAction::HIDDEN, 99), -1);
    assert_eq!(topped_for(StatusAction::DELETE, 99), -2);
    assert_eq!(apply_status_action(EntityKind::Topic, -1, StatusAction::RESET, 5).ok(), Some(0));
    assert_eq!(apply_status_action(EntityKind::Topic, 7, StatusAction::HIDDEN, 5).ok(), Some(-1));
}

#[test]
fn deleted_entity_is_terminal() {
    let t = apply_status_action(EntityKind::Topic, 0, StatusAction::DELETE, 5).ok().unwrap();
    for action in [StatusAction::RESET, StatusAction::MOVEUP, StatusAction::HIDDEN, StatusAction::DELETE] {
        let e = apply_status_action(EntityKind::Topic, t, action, 6).err().unwrap();
        assert_eq!(e.code, ApiErrorCode::TopicNotFound);
        let e = apply_status_action(EntityKind::Reply, t, action, 6).err().unwrap();
        assert_eq!(e.code, ApiErrorCode::ReplyNotFound);
    }
    let rows = vec![topic(1, t, 10), topic(2, 0, 11)];
    let (total, page) = fetch_more(rows, 1, 0, VisibleStyle::ALL, VisibleOrderBy::CREATE, 0, 10);
    assert_eq!(total, 1);
    assert_eq!(ids(&page), vec![2]);
    let rows = vec![topic(1, t, 10), topic(2, 0, 11)];
    let (total, page) = fetch_more(rows, 1, 0, VisibleStyle::NORMAL, VisibleOrderBy::CREATE, 0, 10);
    assert_eq!(total, 1);
    assert_eq!(ids(&page), vec![2]);
}

#[test]
fn hidden_shows_only_in_all_style() {
    assert!(is_visible(VisibleStyle::ALL, -1));
    assert!(!is_visible(VisibleStyle::NORMAL, -1));
    assert!(!is_visible(VisibleStyle::ALL, -2));
    assert!(!is_visible(VisibleStyle::NORMAL, -7));
    let rows = vec![topic(1, -1, 10), topic(2, -3, 11), topic(3, 0, 12)];
    let (total, page) = fetch_more(rows, 1, 0, VisibleStyle::ALL, VisibleOrderBy::CREATE, 0, 10);
    assert_eq!(total, 2);
    assert_eq!(ids(&page), vec![3, 1]);
    let rows = vec![topic(1, -1, 10), topic(2, -3, 11), topic(3, 0, 12)];
    let (total, page) = fetch_more(rows, 1, 0, VisibleStyle::NORMAL, VisibleOrderBy::CREATE, 0, 10);
    assert_eq!(total, 1);
    assert_eq!(ids(&page), vec![3]);
}

#[test]
fn pinned_topics_come_first() {
    let rows = vec![topic(1, 0, 10), topic(2, 1000, 11), topic(3, -1, 12), topic(4, 2000, 13)];
    let (total, page) = fetch_more(rows, 1, 0, VisibleStyle::NORMAL, VisibleOrderBy::CREATE, 0, 10);
    assert_eq!(total, 3);
    let topped: Vec<i64> = page.iter().map(|t| t.topped).collect();
    assert_eq!(topped, vec![2000, 1000, 0]);
}

#[test]
fn listing_pages_and_filters() {
    let mut other = topic(9, 0, 50);
    other.app_id = 2;
    let mut cat = topic(8, 0, 40);
    cat.category = 3;
    let rows = vec![topic(1, 0, 10), topic(2, 0, 20), topic(3, 0, 30), other, cat];
    let (total, page) = fetch_more(rows, 1, 0, VisibleStyle::NORMAL, VisibleOrderBy::CREATE, 1, 2);
    assert_eq!(total, 4);
    assert_eq!(ids(&page), vec![3, 2]);
    let mut cat = topic(8, 0, 40);
    cat.category = 3;
    let rows = vec![topic(1, 0, 10), cat];
    let (total, page) = fetch_more(rows, 1, 3, VisibleStyle::NORMAL, VisibleOrderBy::CREATE, 0, 5);
    assert_eq!(total, 1);
    assert_eq!(ids(&page), vec![8]);
    let (total, page) = fetch_more(vec![topic(1, 0, 10)], 1, 0, VisibleStyle::ALL, VisibleOrderBy::CREATE, 5, 5);
    assert_eq!(total, 1);
    assert!(page.is_empty());
}

#[test]
fn refresh_order_uses_refresh_time() {
    let mut a = topic(1, 0, 10);
    a.refreshed_at = 100;
    let b = topic(2, 0, 20);
    let (_, page) = fetch_more(vec![a, b], 1, 0, VisibleStyle::NORMAL, VisibleOrderBy::REFRESH, 0, 10);
    assert_eq!(ids(&page), vec![1, 2]);
    let mut a = topic(1, 0, 10);
    a.refreshed_at = 100;
    let b = topic(2, 0, 20);
    let (_, page) = fetch_more(vec![a, b], 1, 0, VisibleStyle::NORMAL, VisibleOrderBy::CREATE, 0, 10);
    assert_eq!(ids(&page), vec![2, 1]);
}

#[test]
fn replies_list_newest_first() {
    let mk = |id: u64, topped: i64, at: i64| ReplyModel { id, topic_id: 5, topped, created_at: at, ..Default::default() };
    let rows = vec![mk(1, 0, 10), mk(2, 0, 30), mk(3, -1, 20), mk(4, 0, 5)];
    let (total, page) = doggtalk::reply::fetch_more(rows, 5, VisibleStyle::NORMAL, 0, 10);
    assert_eq!(total, 3);
    let got: Vec<u64> = page.iter().map(|r| r.id).collect();
    assert_eq!(got, vec![2, 1, 4]);
}

#[test]
fn replies_move_the_reply_count() {
    let mut t = topic(1, 0, 10);
    assert_eq!(t.reply_count, 0);
    let author = UserModel { id: 3, app_id: 1, ..Default::default() };
    let mut replies = Vec::new();
    for i in 0..3 {
        let mut r = create_reply(&mut t, &author, format!("reply {}", i), 100 + i);
        r.id = i as u64 + 1;
        replies.push(r);
    }
    assert_eq!(t.reply_count, 3);
    assert_eq!(t.refreshed_at, 102);
    let id = update_reply_status(&mut replies[0], &mut t, 1, StatusAction::DELETE, 200).ok().unwrap();
    assert_eq!(id, 1);
    assert_eq!(t.reply_count, 2);
    assert_eq!(t.refreshed_at, 102);
    assert_eq!(replies[0].topped, -2);
    let again = update_reply_status(&mut replies[0], &mut t, 1, StatusAction::DELETE, 201);
    assert_eq!(again.err().unwrap().code, ApiErrorCode::ReplyNotFound);
    assert_eq!(t.reply_count, 2);
    update_reply_status(&mut replies[1], &mut t, 1, StatusAction::HIDDEN, 202).ok().unwrap();
    assert_eq!(t.reply_count, 2);
}

#[test]
fn topics_move_the_topic_count() {
    let mut author = UserModel { id: 3, app_id: 1, ..Default::default() };
    let mut t = create_topic(&mut author, 4, "t".to_string(), "c".to_string(), 77);
    assert_eq!(author.topic_count, 1);
    assert_eq!((t.app_id, t.user_id, t.category, t.topped, t.created_at, t.refreshed_at), (1, 3, 4, 0, 77, 77));
    let e = update_topic_status(&mut t, &mut author, 2, StatusAction::DELETE, 80).err().unwrap();
    assert_eq!(e.code, ApiErrorCode::NoPermission);
    update_topic_status(&mut t, &mut author, 1, StatusAction::MOVEUP, 80).ok().unwrap();
    assert_eq!(t.topped, 80);
    assert_eq!(author.topic_count, 1);
    update_topic_status(&mut t, &mut author, 1, StatusAction::DELETE, 81).ok().unwrap();
    assert_eq!(author.topic_count, 0);
    let e = update_topic_status(&mut t, &mut author, 1, StatusAction::RESET, 82).err().unwrap();
    assert_eq!(e.code, ApiErrorCode::TopicNotFound);
    assert_eq!((t.topped, author.topic_count), (-2, 0));
}

#[test]
fn status_plans() {
    let p = plan_status_update(EntityKind::Reply, 1, 1, 0, StatusAction::DELETE, 9).ok().unwrap();
    assert_eq!(p.topped, -2);
    assert_eq!(p.counter, Some(UpdateCountOp::DECR));
    let p = plan_status_update(EntityKind::Topic, 1, 1, -1, StatusAction::MOVEUP, 9).ok().unwrap();
    assert_eq!(p.topped, 9);
    assert_eq!(p.counter, None);
    let e = plan_status_update(EntityKind::Topic, 1, 2, 0, StatusAction::RESET, 9).err().unwrap();
    assert_eq!(e.code, ApiErrorCode::NoPermission);
    let e = plan_status_update(EntityKind::Topic, 1, 1, -5, StatusAction::RESET, 9).err().unwrap();
    assert_eq!(e.code, ApiErrorCode::TopicNotFound);
    assert_eq!(e.error, "undefined");
}

#[test]
fn request_checks() {
    assert!(check_tenant(1, 1).is_ok());
    assert_eq!(check_tenant(1, 2).err().unwrap().code, ApiErrorCode::NoPermission);
    let user = UserModel { app_id: 1, ..Default::default() };
    assert!(check_actor(1, &user).is_ok());
    assert_eq!(check_actor(2, &user).err().unwrap().code, ApiErrorCode::NoPermission);
    let pending = UserModel { app_id: 1, status: STATUS_PENDING, ..Default::default() };
    assert_eq!(check_actor(1, &pending).err().unwrap().code, ApiErrorCode::AccountNotActived);
    assert!(check_entity(EntityKind::Topic, 1, 1, 0).is_ok());
    assert_eq!(check_entity(EntityKind::Topic, 1, 2, 0).err().unwrap().code, ApiErrorCode::NoPermission);
    assert_eq!(check_entity(EntityKind::Topic, 1, 1, -1).err().unwrap().code, ApiErrorCode::TopicNotFound);
    assert_eq!(check_entity(EntityKind::Reply, 1, 1, -2).err().unwrap().code, ApiErrorCode::ReplyNotFound);
    assert_eq!(check_managed_user(1, &user).err().unwrap().code, ApiErrorCode::NoPermission);
    let local = UserModel { app_id: 1, source: SOURCE_FAKE, ..Default::default() };
    assert!(check_managed_user(1, &local).is_ok());
}

#[test]
fn counters_move_by_one() {
    assert_eq!(adjust_count(0, UpdateCountOp::INCR), 1);
    assert_eq!(adjust_count(5, UpdateCountOp::DECR), 4);
}
