//! The decision that closes a round: who is the highest contender, and does it
//! outrank this peer.

use crate::state::{ProtocolState, StateView};
use vstd::prelude::*;

verus! {

/// The highest identity in `seen`; 0 when `seen` is empty.
pub open spec fn highest(seen: Seq<u64>) -> u64
    decreases seen.len(),
{
    if seen.len() == 0 {
        0
    } else if seen.last() > highest(seen.drop_last()) {
        seen.last()
    } else {
        highest(seen.drop_last())
    }
}

/// The highest contender, if it outranks `own`.
pub open spec fn strongest_rival(own: u64, seen: Seq<u64>) -> Option<u64> {
    if highest(seen) > own {
        Some(highest(seen))
    } else {
        None
    }
}

/// The state in which a round ends for the peer `own` that has seen `seen`:
/// it follows the highest contender if that one outranks it, and leads
/// otherwise.
pub open spec fn verdict(own: u64, seen: Seq<u64>) -> StateView {
    match strongest_rival(own, seen) {
        Some(id) => StateView::following(id),
        None => StateView::Leader,
    }
}

/// `highest` is an upper bound of the sequence, and one of its members unless
/// the sequence is empty.
pub proof fn highest_is_maximum(seen: Seq<u64>)
    ensures
        forall|i: int| 0 <= i < seen.len() ==> seen[i] <= highest(seen),
        seen.len() > 0 ==> seen.contains(highest(seen)),
    decreases seen.len(),
{
    if seen.len() > 0 {
        let front = seen.drop_last();
        highest_is_maximum(front);
        assert forall|i: int| 0 <= i < seen.len() implies seen[i] <= highest(seen) by {
            if i < front.len() {
                assert(seen[i] == front[i]);
            }
        }
        if seen.last() > highest(front) {
            assert(seen[seen.len() - 1] == highest(seen));
        } else if front.len() > 0 {
            let k = choose|k: int| 0 <= k < front.len() && front[k] == highest(front);
            assert(seen[k] == highest(seen));
        } else {
            assert(seen[seen.len() - 1] == highest(seen));
        }
    }
}

/// The highest identity of two sequences joined is the higher of their two
/// highest identities.
pub proof fn highest_of_joined(a: Seq<u64>, b: Seq<u64>)
    ensures
        highest(a + b) == if highest(a) >= highest(b) {
            highest(a)
        } else {
            highest(b)
        },
    decreases b.len(),
{
    if b.len() == 0 {
        assert(a + b =~= a);
    } else {
        highest_of_joined(a, b.drop_last());
        assert((a + b).drop_last() =~= a + b.drop_last());
        assert((a + b).last() == b.last());
    }
}

/// The highest identity in `seen`; 0 when `seen` is empty.
pub fn highest_of(seen: &Vec<u64>) -> (top: u64)
    ensures
        top == highest(seen@),
{
    let mut top: u64 = 0;
    let mut i: usize = 0;
    while i < seen.len()
        invariant
            i <= seen.len(),
            top == highest(seen@.take(i as int)),
        decreases seen.len() - i,
    {
        proof {
            assert(seen@.take(i as int + 1).drop_last() =~= seen@.take(i as int));
        }
        if seen[i] > top {
            top = seen[i];
        }
        i = i + 1;
    }
    proof {
        assert(seen@.take(i as int) =~= seen@);
    }
    top
}

/// Closes a round for the peer `own`: the state that follows from the callers
/// and the answerers it has seen.
pub fn decide(own: u64, callers: &Vec<u64>, answerers: &Vec<u64>) -> (next: ProtocolState)
    ensures
        next@ == verdict(own, callers@ + answerers@),
{
    let among_callers = highest_of(callers);
    let among_answerers = highest_of(answerers);
    proof {
        highest_of_joined(callers@, answerers@);
    }
    let top = if among_callers >= among_answerers {
        among_callers
    } else {
        among_answerers
    };
    if top > own {
        ProtocolState::following(top)
    } else {
        ProtocolState::Leader
    }
}

} // verus!
