//! The counter protocol: derived counts (replies of a topic, topics of a
//! user, likes of a topic or reply) move by one per event, never recomputed.

use vstd::prelude::*;

verus! {

/// The direction of a counter adjustment.
#[derive(PartialEq, Eq, Structural, Clone, Copy, Debug)]
pub enum UpdateCountOp {
    INCR,
    DECR,
}

pub open spec fn spec_adjust(count: nat, op: UpdateCountOp) -> int {
    match op {
        UpdateCountOp::INCR => count as int + 1,
        UpdateCountOp::DECR => count - 1,
    }
}

/// Whether `count` can move in direction `op` and stay a `u64`.
pub open spec fn can_adjust(count: u64, op: UpdateCountOp) -> bool {
    match op {
        UpdateCountOp::INCR => count < u64::MAX,
        UpdateCountOp::DECR => count > 0,
    }
}

/// The count after one adjustment. A decrement only follows the removal of
/// something counted, so the count is then positive.
pub fn adjust_count(count: u64, op: UpdateCountOp) -> (r: u64)
    requires
        can_adjust(count, op),
    ensures
        r == spec_adjust(count as nat, op),
{
    match op {
        UpdateCountOp::INCR => count + 1,
        UpdateCountOp::DECR => count - 1,
    }
}

} // verus!
