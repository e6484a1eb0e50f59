//! Ordering and paging of listings. A listed entity has a rank, a pair of
//! keys sorted in descending order: first the pin (`topped`), then a time.

use vstd::prelude::*;
use crate::status::{VisibleOrderBy, VisibleStyle};

verus! {

broadcast use vstd::seq_lib::group_to_multiset_ensures;

/// An entity that a listing selects and sorts.
pub trait Listed: Sized {
    /// Whether the entity belongs to a listing of `owner` (its tenant or
    /// its topic), of `category` where that is positive, in `style`.
    spec fn spec_matches(&self, owner: u64, category: u64, style: VisibleStyle) -> bool;

    fn matches(&self, owner: u64, category: u64, style: VisibleStyle) -> (r: bool)
        ensures
            r == self.spec_matches(owner, category, style),
    ;

    /// The pair of keys, both sorted in descending order.
    spec fn spec_rank(&self, order_by: VisibleOrderBy) -> (i64, i64);

    fn rank(&self, order_by: VisibleOrderBy) -> (r: (i64, i64))
        ensures
            r == self.spec_rank(order_by),
    ;
}

/// Whether rank `a` may stand before rank `b`.
pub open spec fn rank_before(a: (i64, i64), b: (i64, i64)) -> bool {
    a.0 > b.0 || (a.0 == b.0 && a.1 >= b.1)
}

pub open spec fn is_ordered<T: Listed>(s: Seq<T>, order_by: VisibleOrderBy) -> bool {
    forall|i: int, j: int|
        0 <= i < j < s.len() ==> rank_before(
            #[trigger] s[i].spec_rank(order_by),
            #[trigger] s[j].spec_rank(order_by),
        )
}

/// The items of `rows`, highest rank first.
pub fn order_listing<T: Listed>(rows: Vec<T>, order_by: VisibleOrderBy) -> (r: Vec<T>)
    ensures
        r@.to_multiset() == rows@.to_multiset(),
        is_ordered(r@, order_by),
{
    let mut rest = rows;
    let mut out: Vec<T> = Vec::new();
    while rest.len() > 0
        invariant
            out@.to_multiset().add(rest@.to_multiset()) == rows@.to_multiset(),
            is_ordered(out@, order_by),
            forall|i: int, j: int|
                0 <= i < out@.len() && 0 <= j < rest@.len() ==> rank_before(
                    #[trigger] out@[i].spec_rank(order_by),
                    #[trigger] rest@[j].spec_rank(order_by),
                ),
        decreases rest@.len(),
    {
        let mut best: usize = 0;
        let mut best_rank = rest[0].rank(order_by);
        let mut i: usize = 1;
        while i < rest.len()
            invariant
                0 <= best < i <= rest@.len(),
                best_rank == rest@[best as int].spec_rank(order_by),
                forall|j: int|
                    0 <= j < i ==> rank_before(best_rank, #[trigger] rest@[j].spec_rank(order_by)),
            decreases rest@.len() - i,
        {
            let k = rest[i].rank(order_by);
            if k.0 > best_rank.0 || (k.0 == best_rank.0 && k.1 > best_rank.1) {
                best = i;
                best_rank = k;
            }
            i = i + 1;
        }
        let ghost old_rest = rest@;
        let ghost old_out = out@;
        let item = rest.remove(best);
        out.push(item);
        proof {
            assert(old_rest.remove(best as int).to_multiset() == old_rest.to_multiset().remove(
                old_rest[best as int],
            ));
            assert(old_out.push(item).to_multiset() == old_out.to_multiset().insert(item));
            assert(out@.to_multiset().add(rest@.to_multiset()) =~= rows@.to_multiset());
            assert forall|a: int, b: int| 0 <= a < b < out@.len() implies rank_before(
                #[trigger] out@[a].spec_rank(order_by),
                #[trigger] out@[b].spec_rank(order_by),
            ) by {
                if b == out@.len() - 1 {
                    assert(old_rest[best as int] == item);
                }
            }
            assert forall|a: int, b: int|
                0 <= a < out@.len() && 0 <= b < rest@.len() implies rank_before(
                #[trigger] out@[a].spec_rank(order_by),
                #[trigger] rest@[b].spec_rank(order_by),
            ) by {
                if b < best {
                    assert(rest@[b] == old_rest[b]);
                } else {
                    assert(rest@[b] == old_rest[b + 1]);
                }
            }
        }
    }
    out
}

/// The window of a listing that starts at `cursor` and holds at most
/// `count` items.
pub open spec fn spec_page<T>(s: Seq<T>, cursor: nat, count: nat) -> Seq<T> {
    if cursor >= s.len() {
        Seq::empty()
    } else if cursor + count >= s.len() {
        s.subrange(cursor as int, s.len() as int)
    } else {
        s.subrange(cursor as int, (cursor + count) as int)
    }
}

pub fn page<T>(rows: Vec<T>, cursor: u32, count: u32) -> (r: Vec<T>)
    ensures
        r@ == spec_page(rows@, cursor as nat, count as nat),
{
    let mut all = rows;
    if cursor as usize >= all.len() {
        return Vec::new();
    }
    let mut tail = all.split_off(cursor as usize);
    tail.truncate(count as usize);
    tail
}

} // verus!

verus! {

/// Whether `s` holds exactly the items of `rows` that match, each as often
/// as there, in listing order.
pub open spec fn is_listing_of<T: Listed>(
    s: Seq<T>,
    rows: Seq<T>,
    owner: u64,
    category: u64,
    style: VisibleStyle,
    order_by: VisibleOrderBy,
) -> bool {
    &&& forall|x: T| #[trigger]
        s.to_multiset().count(x) == if x.spec_matches(owner, category, style) {
            rows.to_multiset().count(x)
        } else {
            0
        }
    &&& is_ordered(s, order_by)
}

/// The items of `rows` that match, in some order.
pub fn select_listing<T: Listed>(rows: Vec<T>, owner: u64, category: u64, style: VisibleStyle) -> (r:
    Vec<T>)
    ensures
        forall|x: T| #[trigger]
            r@.to_multiset().count(x) == if x.spec_matches(owner, category, style) {
                rows@.to_multiset().count(x)
            } else {
                0
            },
        r@.len() <= rows@.len(),
{
    let mut rest = rows;
    let mut kept: Vec<T> = Vec::new();
    while rest.len() > 0
        invariant
            forall|x: T| #[trigger]
                kept@.to_multiset().count(x) == if x.spec_matches(owner, category, style) {
                    rows@.to_multiset().count(x) - rest@.to_multiset().count(x)
                } else {
                    0
                },
            forall|x: T| #[trigger] rest@.to_multiset().count(x) <= rows@.to_multiset().count(x),
            kept@.len() + rest@.len() <= rows@.len(),
        decreases rest@.len(),
    {
        let ghost old_rest = rest@;
        let ghost old_kept = kept@;
        let item = rest.pop().unwrap();
        proof {
            assert(old_rest =~= rest@.push(item));
        }
        if item.matches(owner, category, style) {
            kept.push(item);
        }
        proof {
            assert(old_rest.to_multiset() == rest@.to_multiset().insert(item));
            assert forall|x: T| #[trigger]
                rest@.to_multiset().count(x) <= old_rest.to_multiset().count(x) by {}
            if item.spec_matches(owner, category, style) {
                assert(kept@ == old_kept.push(item));
                assert(kept@.to_multiset() == old_kept.to_multiset().insert(item));
            }
        }
    }
    kept
}

/// One page of a listing, and the number of items of the whole listing.
pub fn fetch_listing<T: Listed>(
    rows: Vec<T>,
    owner: u64,
    category: u64,
    style: VisibleStyle,
    order_by: VisibleOrderBy,
    cursor: u32,
    count: u32,
) -> (r: (u32, Vec<T>))
    requires
        rows@.len() <= u32::MAX,
    ensures
        exists|s: Seq<T>|
            {
                &&& is_listing_of(s, rows@, owner, category, style, order_by)
                &&& r.0 == s.len()
                &&& r.1@ == spec_page(s, cursor as nat, count as nat)
            },
{
    let ghost all = rows@;
    let kept = select_listing(rows, owner, category, style);
    let ghost k = kept@;
    let ordered = order_listing(kept, order_by);
    proof {
        vstd::seq_lib::to_multiset_len(k);
        vstd::seq_lib::to_multiset_len(ordered@);
    }
    let ghost s = ordered@;
    let total = ordered.len() as u32;
    let items = page(ordered, cursor, count);
    assert(is_listing_of(s, all, owner, category, style, order_by));
    (total, items)
}

} // verus!
