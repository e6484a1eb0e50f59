use doggtalk::counter::UpdateCountOp;
use doggtalk::ledger::{
    like_entity, like_key, like_outcome, myself_from_scores, unlike_entity, LikeLedger,
};
use doggtalk::status::EntityKind;

#[test]
fn like_twice_counts_once() {
    let mut ledger = LikeLedger::new();
    let mut count: u64 = 5;
    let first = like_entity(&mut ledger, &mut count, EntityKind::Topic, 7, 42);
    let second = like_entity(&mut ledger, &mut count, EntityKind::Topic, 7, 42);
    assert_eq!(first.affect, 1);
    assert_eq!(first.like_count, 6);
    assert_eq!(second.affect, 0);
    assert_eq!(second.like_count, 6);
    assert_eq!(count, 6);
    assert!(ledger.is_liked(EntityKind::Topic, 7, 42));
}

#[test]
fn unlike_never_liked_changes_nothing() {
    let mut ledger = LikeLedger::new();
    let mut count: u64 = 3;
    let r = unlike_entity(&mut ledger, &mut count, EntityKind::Topic, 7, 42);
    assert_eq!(r.affect, 0);
    assert_eq!(r.like_count, 3);
    assert_eq!(count, 3);
    assert!(!ledger.is_liked(EntityKind::Topic, 7, 42));
}

#[test]
fn like_then_unlike_restores_state() {
    let mut ledger = LikeLedger::new();
    ledger.like(EntityKind::Topic, 1, 9);
    let mut count: u64 = 1;
    assert!(!ledger.is_liked(EntityKind::Topic, 7, 42));
    let a = like_entity(&mut ledger, &mut count, EntityKind::Topic, 7, 42);
    assert_eq!(a.affect, 1);
    assert_eq!(count, 2);
    let b = unlike_entity(&mut ledger, &mut count, EntityKind::Topic, 7, 42);
    assert_eq!(b.affect, 1);
    assert_eq!(b.like_count, 1);
    assert_eq!(count, 1);
    assert!(!ledger.is_liked(EntityKind::Topic, 7, 42));
    assert!(ledger.is_liked(EntityKind::Topic, 1, 9));
}

#[test]
fn likes_are_per_entity_and_user() {
    let mut ledger = LikeLedger::new();
    assert_eq!(ledger.like(EntityKind::Topic, 1, 2), 1);
    assert!(!ledger.is_liked(EntityKind::Topic, 2, 1));
    assert!(!ledger.is_liked(EntityKind::Topic, 1, 3));
    assert_eq!(ledger.like(EntityKind::Topic, 2, 2), 1);
    assert_eq!(ledger.unlike(EntityKind::Topic, 1, 2), 1);
    assert_eq!(ledger.unlike(EntityKind::Topic, 1, 2), 0);
    assert!(ledger.is_liked(EntityKind::Topic, 2, 2));
}

#[test]
fn batch_lookup_marks_liked_entities() {
    let mut ledger = LikeLedger::new();
    let viewer: u64 = 100;
    ledger.like(EntityKind::Topic, 1, viewer);
    ledger.like(EntityKind::Topic, 3, viewer);
    ledger.like(EntityKind::Topic, 2, 999);
    let r = ledger.is_liked_batch(EntityKind::Topic, &vec![1, 2, 3], viewer);
    assert_eq!(r.len(), 3);
    assert_eq!(r.get(&1), Some(&true));
    assert_eq!(r.get(&2), Some(&false));
    assert_eq!(r.get(&3), Some(&true));
}

#[test]
fn batch_scores_become_myself_flags() {
    let ids = vec![10, 20, 30];
    let scores = vec![Some(1700000000), None, Some(1700000001)];
    let m = myself_from_scores(&ids, &scores);
    assert!(m.get(10).is_liked);
    assert!(!m.get(20).is_liked);
    assert!(m.get(30).is_liked);
    assert!(!m.get(40).is_liked);
}

#[test]
fn like_keys_name_the_entity() {
    assert_eq!(like_key(EntityKind::Topic, 12), "topiclike:12");
    assert_eq!(like_key(EntityKind::Reply, 0), "replylike:0");
    assert_eq!(like_key(EntityKind::Reply, u64::MAX), "replylike:18446744073709551615");
}

#[test]
fn outcome_follows_the_ledger_answer() {
    let (r, op) = like_outcome(4, 1, UpdateCountOp::INCR);
    assert_eq!((r.affect, r.like_count), (1, 5));
    assert_eq!(op, Some(UpdateCountOp::INCR));
    let (r, op) = like_outcome(4, 0, UpdateCountOp::INCR);
    assert_eq!((r.affect, r.like_count), (0, 4));
    assert_eq!(op, None);
    let (r, op) = like_outcome(4, 1, UpdateCountOp::DECR);
    assert_eq!((r.affect, r.like_count), (1, 3));
    assert_eq!(op, Some(UpdateCountOp::DECR));
}

#[test]
fn topic_and_reply_likes_are_kept_apart() {
    let mut ledger = LikeLedger::new();
    assert_eq!(ledger.like(EntityKind::Topic, 5, 1), 1);
    assert!(!ledger.is_liked(EntityKind::Reply, 5, 1));
    assert_eq!(ledger.like(EntityKind::Reply, 5, 1), 1);
    assert_eq!(ledger.unlike(EntityKind::Topic, 5, 1), 1);
    assert!(ledger.is_liked(EntityKind::Reply, 5, 1));
    let r = ledger.is_liked_batch(EntityKind::Topic, &vec![5], 1);
    assert_eq!(r.get(&5), Some(&false));
}
