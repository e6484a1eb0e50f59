//! The like ledger: for each entity, the set of users who like it. A like
//! adds the user only if absent and an unlike removes it only if present;
//! the answer (`affected`, 0 or 1) is the sole trigger of a like-count
//! adjustment, which makes repeated clicks harmless.

use vstd::prelude::*;
use std::collections::HashMap;
use std::collections::HashSet;
use crate::base::ArcDataMap;
use crate::counter::{UpdateCountOp, adjust_count, can_adjust, spec_adjust};
use crate::status::EntityKind;
use crate::text::{decimal, spec_decimal};

verus! {

broadcast use vstd::std_specs::hash::group_hash_axioms;

/// Whether one of the first `n` items of `s` is `x`.
pub open spec fn in_prefix(s: Seq<u64>, n: int, x: u64) -> bool {
    exists|j: int| 0 <= j < n && #[trigger] s[j] == x
}

proof fn lemma_in_prefix_step(s: Seq<u64>, n: int)
    requires
        0 <= n < s.len(),
    ensures
        forall|x: u64| #[trigger] in_prefix(s, n + 1, x) <==> (in_prefix(s, n, x) || s[n] == x),
{
    assert forall|x: u64| #[trigger] in_prefix(s, n + 1, x) <==> (in_prefix(s, n, x) || s[n] == x) by {
        if in_prefix(s, n + 1, x) {
            let j = choose|j: int| 0 <= j < n + 1 && #[trigger] s[j] == x;
            if j < n {
                assert(in_prefix(s, n, x));
            }
        }
        if in_prefix(s, n, x) {
            let j = choose|j: int| 0 <= j < n && #[trigger] s[j] == x;
            assert(0 <= j < n + 1 && s[j] == x);
        }
        if s[n] == x {
            assert(0 <= n < n + 1 && s[n] == x);
        }
    }
}

proof fn lemma_in_prefix_all(s: Seq<u64>)
    ensures
        forall|x: u64| #[trigger] in_prefix(s, s.len() as int, x) <==> s.contains(x),
{
    assert forall|x: u64| #[trigger] in_prefix(s, s.len() as int, x) <==> s.contains(x) by {
        if s.contains(x) {
            let j = choose|j: int| 0 <= j < s.len() && s[j] == x;
            assert(0 <= j < s.len() && s[j] == x);
        }
    }
}

/// The (entity, user) pairs that a map of like sets holds.
pub open spec fn pairs_of(m: Map<u64, HashSet<u64>>) -> Set<(u64, u64)> {
    Set::new(|p: (u64, u64)| m.contains_key(p.0) && m[p.0]@.contains(p.1))
}

/// Adds `user_id` to the like set of `entity_id` if absent.
fn add_pair(m: &mut HashMap<u64, HashSet<u64>>, entity_id: u64, user_id: u64) -> (added: bool)
    ensures
        pairs_of(final(m)@) == pairs_of(old(m)@).insert((entity_id, user_id)),
        added == !pairs_of(old(m)@).contains((entity_id, user_id)),
{
    let mut set = match m.remove(&entity_id) {
        Some(s) => s,
        None => HashSet::new(),
    };
    let added = set.insert(user_id);
    m.insert(entity_id, set);
    assert(pairs_of(m@) =~= pairs_of(old(m)@).insert((entity_id, user_id)));
    added
}

/// Removes `user_id` from the like set of `entity_id` if present.
fn drop_pair(m: &mut HashMap<u64, HashSet<u64>>, entity_id: u64, user_id: u64) -> (removed: bool)
    ensures
        pairs_of(final(m)@) == pairs_of(old(m)@).remove((entity_id, user_id)),
        removed == pairs_of(old(m)@).contains((entity_id, user_id)),
{
    match m.remove(&entity_id) {
        Some(s) => {
            let mut set = s;
            let removed = set.remove(&user_id);
            m.insert(entity_id, set);
            assert(pairs_of(m@) =~= pairs_of(old(m)@).remove((entity_id, user_id)));
            removed
        },
        None => {
            assert(pairs_of(m@) =~= pairs_of(old(m)@).remove((entity_id, user_id)));
            false
        },
    }
}

fn has_pair(m: &HashMap<u64, HashSet<u64>>, entity_id: u64, user_id: u64) -> (r: bool)
    ensures
        r == pairs_of(m@).contains((entity_id, user_id)),
{
    match m.get(&entity_id) {
        Some(s) => s.contains(&user_id),
        None => false,
    }
}

/// The users who like each topic and each reply. Topics and replies keep
/// separate sets, as the store keeps them under separate keys.
pub struct LikeLedger {
    topics: HashMap<u64, HashSet<u64>>,
    replies: HashMap<u64, HashSet<u64>>,
}

impl View for LikeLedger {
    /// The (kind, entity, user) triples of all likes.
    type V = Set<(EntityKind, u64, u64)>;

    closed spec fn view(&self) -> Set<(EntityKind, u64, u64)> {
        Set::new(
            |t: (EntityKind, u64, u64)|
                match t.0 {
                    EntityKind::Topic => pairs_of(self.topics@).contains((t.1, t.2)),
                    EntityKind::Reply => pairs_of(self.replies@).contains((t.1, t.2)),
                },
        )
    }
}

/// What a like answers: 1 where the like was absent and is now added.
pub open spec fn spec_like_affect(
    ledger: Set<(EntityKind, u64, u64)>,
    kind: EntityKind,
    entity_id: u64,
    user_id: u64,
) -> u64 {
    if ledger.contains((kind, entity_id, user_id)) {
        0
    } else {
        1
    }
}

/// What an unlike answers: 1 where the like was present and is now removed.
pub open spec fn spec_unlike_affect(
    ledger: Set<(EntityKind, u64, u64)>,
    kind: EntityKind,
    entity_id: u64,
    user_id: u64,
) -> u64 {
    if ledger.contains((kind, entity_id, user_id)) {
        1
    } else {
        0
    }
}

impl LikeLedger {
    /// A ledger holds finitely many likes; every operation keeps it so.
    pub open spec fn wf(&self) -> bool {
        self@.finite()
    }

    pub fn new() -> (r: Self)
        ensures
            r@ == Set::<(EntityKind, u64, u64)>::empty(),
            r.wf(),
    {
        let r = LikeLedger { topics: HashMap::new(), replies: HashMap::new() };
        assert(r@ =~= Set::<(EntityKind, u64, u64)>::empty());
        r
    }

    /// Adds the like of `user_id` on the entity if it is absent.
    pub fn like(&mut self, kind: EntityKind, entity_id: u64, user_id: u64) -> (affected: u64)
        requires
            old(self).wf(),
        ensures
            final(self)@ == old(self)@.insert((kind, entity_id, user_id)),
            final(self).wf(),
            affected == spec_like_affect(old(self)@, kind, entity_id, user_id),
    {
        let added = match kind {
            EntityKind::Topic => add_pair(&mut self.topics, entity_id, user_id),
            EntityKind::Reply => add_pair(&mut self.replies, entity_id, user_id),
        };
        assert(self@ =~= old(self)@.insert((kind, entity_id, user_id)));
        if added {
            1
        } else {
            0
        }
    }

    /// Removes the like of `user_id` on the entity if it is present.
    pub fn unlike(&mut self, kind: EntityKind, entity_id: u64, user_id: u64) -> (affected: u64)
        requires
            old(self).wf(),
        ensures
            final(self)@ == old(self)@.remove((kind, entity_id, user_id)),
            final(self).wf(),
            affected == spec_unlike_affect(old(self)@, kind, entity_id, user_id),
    {
        let removed = match kind {
            EntityKind::Topic => drop_pair(&mut self.topics, entity_id, user_id),
            EntityKind::Reply => drop_pair(&mut self.replies, entity_id, user_id),
        };
        assert(self@ =~= old(self)@.remove((kind, entity_id, user_id)));
        if removed {
            1
        } else {
            0
        }
    }

    /// Whether `user_id` likes the entity.
    pub fn is_liked(&self, kind: EntityKind, entity_id: u64, user_id: u64) -> (r: bool)
        ensures
            r == self@.contains((kind, entity_id, user_id)),
    {
        match kind {
            EntityKind::Topic => has_pair(&self.topics, entity_id, user_id),
            EntityKind::Reply => has_pair(&self.replies, entity_id, user_id),
        }
    }

    /// For each of `entity_ids`, whether `user_id` likes it, in one pass.
    pub fn is_liked_batch(&self, kind: EntityKind, entity_ids: &Vec<u64>, user_id: u64) -> (r: HashMap<
        u64,
        bool,
    >)
        ensures
            forall|id: u64| #[trigger] r@.contains_key(id) <==> entity_ids@.contains(id),
            forall|id: u64| #[trigger]
                r@.contains_key(id) ==> r@[id] == self@.contains((kind, id, user_id)),
    {
        let mut out: HashMap<u64, bool> = HashMap::new();
        let mut i: usize = 0;
        while i < entity_ids.len()
            invariant
                i <= entity_ids@.len(),
                forall|id: u64| #[trigger] out@.contains_key(id) <==> in_prefix(entity_ids@, i as int, id),
                forall|id: u64| #[trigger]
                    out@.contains_key(id) ==> out@[id] == self@.contains((kind, id, user_id)),
            decreases entity_ids@.len() - i,
        {
            let id = entity_ids[i];
            let liked = self.is_liked(kind, id, user_id);
            out.insert(id, liked);
            proof {
                lemma_in_prefix_step(entity_ids@, i as int);
            }
            i = i + 1;
        }
        proof {
            lemma_in_prefix_all(entity_ids@);
        }
        out
    }
}

/// The answer to a like or unlike request: whether the ledger changed, and
/// the like count after the request.
pub struct LikeResponse {
    pub affect: u64,
    pub like_count: u64,
}

/// What follows the ledger's answer `affect` to a like (`INCR`) or an unlike
/// (`DECR`) on an entity whose stored like count is `like_count`: the
/// response, and the adjustment of the stored count, if any. Only a ledger
/// change moves the count.
pub fn like_outcome(like_count: u64, affect: u64, op: UpdateCountOp) -> (r: (
    LikeResponse,
    Option<UpdateCountOp>,
))
    requires
        affect <= 1,
        affect == 1 ==> can_adjust(like_count, op),
    ensures
        r.0.affect == affect,
        affect == 1 ==> r.0.like_count == spec_adjust(like_count as nat, op) && r.1 == Some(op),
        affect == 0 ==> r.0.like_count == like_count && r.1 is None,
{
    if affect == 1 {
        (LikeResponse { affect, like_count: adjust_count(like_count, op) }, Some(op))
    } else {
        (LikeResponse { affect, like_count }, None)
    }
}

/// A like on an entity whose like count is `like_count`: the ledger takes
/// the like and the count moves with the ledger's answer.
pub fn like_entity(
    ledger: &mut LikeLedger,
    like_count: &mut u64,
    kind: EntityKind,
    entity_id: u64,
    user_id: u64,
) -> (r: LikeResponse)
    requires
        old(ledger).wf(),
        !old(ledger)@.contains((kind, entity_id, user_id)) ==> *old(like_count) < u64::MAX,
    ensures
        final(ledger)@ == old(ledger)@.insert((kind, entity_id, user_id)),
        final(ledger).wf(),
        r.affect == spec_like_affect(old(ledger)@, kind, entity_id, user_id),
        *final(like_count) == *old(like_count) + r.affect,
        r.like_count == *final(like_count),
{
    let affect = ledger.like(kind, entity_id, user_id);
    let (resp, adjust) = like_outcome(*like_count, affect, UpdateCountOp::INCR);
    if let Some(op) = adjust {
        *like_count = adjust_count(*like_count, op);
    }
    resp
}

/// An unlike on an entity whose like count is `like_count`: the ledger
/// drops the like and the count moves with the ledger's answer. The count
/// covers the ledger's likes, so it is positive where the like is there.
pub fn unlike_entity(
    ledger: &mut LikeLedger,
    like_count: &mut u64,
    kind: EntityKind,
    entity_id: u64,
    user_id: u64,
) -> (r: LikeResponse)
    requires
        old(ledger).wf(),
        old(ledger)@.contains((kind, entity_id, user_id)) ==> *old(like_count) > 0,
    ensures
        final(ledger)@ == old(ledger)@.remove((kind, entity_id, user_id)),
        final(ledger).wf(),
        r.affect == spec_unlike_affect(old(ledger)@, kind, entity_id, user_id),
        *final(like_count) == *old(like_count) - r.affect,
        r.like_count == *final(like_count),
{
    let affect = ledger.unlike(kind, entity_id, user_id);
    let (resp, adjust) = like_outcome(*like_count, affect, UpdateCountOp::DECR);
    if let Some(op) = adjust {
        *like_count = adjust_count(*like_count, op);
    }
    resp
}

/// Liking twice in a row where no like was there: the first like answers
/// 1, the second 0, and the like count grows by exactly one.
pub proof fn law_like_idempotent(
    ledger: Set<(EntityKind, u64, u64)>,
    like_count: nat,
    kind: EntityKind,
    entity_id: u64,
    user_id: u64,
)
    requires
        !ledger.contains((kind, entity_id, user_id)),
    ensures
        ({
            let first = spec_like_affect(ledger, kind, entity_id, user_id);
            let after = ledger.insert((kind, entity_id, user_id));
            let second = spec_like_affect(after, kind, entity_id, user_id);
            &&& first == 1
            &&& second == 0
            &&& after.insert((kind, entity_id, user_id)) == after
            &&& like_count + first + second == like_count + 1
        }),
{
    let p = (kind, entity_id, user_id);
    assert(ledger.insert(p).insert(p) =~= ledger.insert(p));
}

/// An unlike of a like that was never there answers 0 and changes neither
/// the ledger nor the like count.
pub proof fn law_unlike_idempotent(
    ledger: Set<(EntityKind, u64, u64)>,
    like_count: nat,
    kind: EntityKind,
    entity_id: u64,
    user_id: u64,
)
    requires
        !ledger.contains((kind, entity_id, user_id)),
    ensures
        spec_unlike_affect(ledger, kind, entity_id, user_id) == 0,
        ledger.remove((kind, entity_id, user_id)) == ledger,
        like_count - spec_unlike_affect(ledger, kind, entity_id, user_id) == like_count,
{
    assert(ledger.remove((kind, entity_id, user_id)) =~= ledger);
}

/// A like followed by an unlike, where no like was there, gives back the
/// ledger and the like count as they were; the like is absent before and
/// after.
pub proof fn law_like_unlike_symmetry(
    ledger: Set<(EntityKind, u64, u64)>,
    like_count: nat,
    kind: EntityKind,
    entity_id: u64,
    user_id: u64,
)
    requires
        !ledger.contains((kind, entity_id, user_id)),
    ensures
        ({
            let p = (kind, entity_id, user_id);
            let liked = ledger.insert(p);
            let back = liked.remove(p);
            &&& back == ledger
            &&& like_count + spec_like_affect(ledger, kind, entity_id, user_id) - spec_unlike_affect(
                liked,
                kind,
                entity_id,
                user_id,
            ) == like_count
            &&& !back.contains(p)
        }),
{
    let p = (kind, entity_id, user_id);
    assert(ledger.insert(p).remove(p) =~= ledger);
}

/// The likes of one entity.
pub open spec fn likes_of(ledger: Set<(EntityKind, u64, u64)>, kind: EntityKind, entity_id: u64) -> Set<
    (EntityKind, u64, u64),
> {
    ledger.filter(|t: (EntityKind, u64, u64)| t.0 == kind && t.1 == entity_id)
}

/// A like count that equals the number of the entity's likes in the
/// ledger still does after a like or an unlike, since it moves by exactly
/// the ledger's answer.
pub proof fn law_like_count_tracks_ledger(
    ledger: Set<(EntityKind, u64, u64)>,
    like_count: nat,
    kind: EntityKind,
    entity_id: u64,
    user_id: u64,
)
    requires
        ledger.finite(),
        like_count == likes_of(ledger, kind, entity_id).len(),
    ensures
        like_count + spec_like_affect(ledger, kind, entity_id, user_id) == likes_of(
            ledger.insert((kind, entity_id, user_id)),
            kind,
            entity_id,
        ).len(),
        like_count - spec_unlike_affect(ledger, kind, entity_id, user_id) == likes_of(
            ledger.remove((kind, entity_id, user_id)),
            kind,
            entity_id,
        ).len(),
{
    let p = (kind, entity_id, user_id);
    let mine = likes_of(ledger, kind, entity_id);
    ledger.lemma_len_filter(|t: (EntityKind, u64, u64)| t.0 == kind && t.1 == entity_id);
    assert(likes_of(ledger.insert(p), kind, entity_id) =~= mine.insert(p));
    assert(likes_of(ledger.remove(p), kind, entity_id) =~= mine.remove(p));
    assert(mine.contains(p) == ledger.contains(p));
    vstd::set::axiom_set_insert_len(mine, p);
    vstd::set::axiom_set_remove_len(mine, p);
}

/// The "have I liked this" part of a listed item.
pub struct MySelfData {
    pub is_liked: bool,
}

impl Default for MySelfData {
    fn default() -> (r: Self)
        ensures
            !r.is_liked,
    {
        MySelfData { is_liked: false }
    }
}

pub open spec fn spec_like_prefix(kind: EntityKind) -> Seq<char> {
    match kind {
        EntityKind::Topic => "topiclike:"@,
        EntityKind::Reply => "replylike:"@,
    }
}

/// The key of an entity's like set in the key-value store.
pub fn like_key(kind: EntityKind, id: u64) -> (r: String)
    ensures
        r@ == spec_like_prefix(kind) + spec_decimal(id as nat),
{
    let digits = decimal(id);
    let prefix = match kind {
        EntityKind::Topic => "topiclike:",
        EntityKind::Reply => "replylike:",
    };
    String::from_str(prefix).concat(digits.as_str())
}

/// Whether some position of `ids` holds `id` with a score beside it.
pub open spec fn spec_scored(ids: Seq<u64>, scores: Seq<Option<u64>>, id: u64) -> bool {
    exists|j: int| 0 <= j < ids.len() && ids[j] == id && (#[trigger] scores[j]) is Some
}

/// Turns the answers of one batched lookup into the per-item "myself"
/// data: `scores[i]` is the like score of `user_id` on `ids[i]`, present
/// exactly where the like exists.
pub fn myself_from_scores(ids: &Vec<u64>, scores: &Vec<Option<u64>>) -> (r: ArcDataMap<u64, MySelfData>)
    requires
        ids@.len() == scores@.len(),
    ensures
        forall|id: u64| #[trigger] r@.contains_key(id) <==> ids@.contains(id),
        forall|id: u64| #[trigger]
            r@.contains_key(id) ==> r@[id].is_liked == spec_scored(ids@, scores@, id),
{
    let mut liked: HashSet<u64> = HashSet::new();
    let mut i: usize = 0;
    while i < ids.len()
        invariant
            i <= ids@.len(),
            ids@.len() == scores@.len(),
            forall|id: u64| #[trigger] liked@.contains(id) <==> spec_scored(
                ids@.subrange(0, i as int), scores@.subrange(0, i as int), id),
        decreases ids@.len() - i,
    {
        let ghost before = liked@;
        if scores[i].is_some() {
            liked.insert(ids[i]);
        }
        assert forall|id: u64| #[trigger] liked@.contains(id) <==> spec_scored(
            ids@.subrange(0, i + 1), scores@.subrange(0, i + 1), id) by {
            let a = ids@.subrange(0, i as int);
            let b = scores@.subrange(0, i as int);
            let a1 = ids@.subrange(0, i + 1);
            let b1 = scores@.subrange(0, i + 1);
            if spec_scored(a, b, id) {
                let j = choose|j: int| 0 <= j < a.len() && a[j] == id && (#[trigger] b[j]) is Some;
                assert(a1[j] == id && b1[j] == b[j]);
            }
            if spec_scored(a1, b1, id) {
                let j = choose|j: int| 0 <= j < a1.len() && a1[j] == id && (#[trigger] b1[j]) is Some;
                if j < i {
                    assert(a[j] == id && b[j] == b1[j]);
                }
            }
            if scores@[i as int] is Some && ids@[i as int] == id {
                assert(a1[i as int] == id && b1[i as int] is Some);
            }
        }
        i = i + 1;
    }
    assert(ids@.subrange(0, i as int) =~= ids@);
    assert(scores@.subrange(0, i as int) =~= scores@);
    let mut out: ArcDataMap<u64, MySelfData> = ArcDataMap::new();
    let mut k: usize = 0;
    while k < ids.len()
        invariant
            k <= ids@.len(),
            forall|id: u64| #[trigger] liked@.contains(id) <==> spec_scored(ids@, scores@, id),
            forall|id: u64| #[trigger]
                out@.contains_key(id) <==> in_prefix(ids@, k as int, id),
            forall|id: u64| #[trigger]
                out@.contains_key(id) ==> out@[id].is_liked == spec_scored(ids@, scores@, id),
        decreases ids@.len() - k,
    {
        let id = ids[k];
        let is_liked = liked.contains(&id);
        out.insert(id, MySelfData { is_liked });
        proof {
            lemma_in_prefix_step(ids@, k as int);
        }
        k = k + 1;
    }
    proof {
        lemma_in_prefix_all(ids@);
    }
    out
}

} // verus!
