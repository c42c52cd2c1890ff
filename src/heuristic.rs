//! The default estimation heuristic: the median of recent tips, kept above a
//! floor, on top of twice the base fee.
use vstd::prelude::*;
use vstd::seq_lib::*;
use vstd::relations::*;
use crate::error::EstimateError;
use crate::wei::{Wei, wei_limit, checked_add, less_than};

verus! {

/// The smallest tip the default heuristic suggests, in wei. A window of empty
/// or fully subsidised blocks then yields this rather than a zero tip.
pub const MIN_PRIORITY_FEE: u64 = 1;

/// A suggested fee pair, in wei.
#[derive(Clone, Copy, Debug)]
pub struct FeeEstimate {
    /// The most a sender pays per unit of gas, base fee and tip together.
    pub max_fee_per_gas: Wei,
    /// The tip per unit of gas paid to the block producer.
    pub max_priority_fee_per_gas: Wei,
}

impl View for FeeEstimate {
    type V = (nat, nat);

    open spec fn view(&self) -> (nat, nat) {
        (self.max_fee_per_gas@, self.max_priority_fee_per_gas@)
    }
}

/// The reward series of a fee history as numbers: one sequence per block.
pub open spec fn rewards_view(rewards: Seq<Vec<Wei>>) -> Seq<Seq<nat>> {
    rewards.map_values(|r: Vec<Wei>| r@.map_values(|w: Wei| w@))
}

/// The amounts of `ws` as integers.
pub open spec fn amounts(ws: Seq<Wei>) -> Seq<int> {
    ws.map_values(|w: Wei| w@ as int)
}

/// The tip of each block, in order: the first reward of each block that has
/// one. A block without any reward contributes nothing.
pub open spec fn tips(rewards: Seq<Seq<nat>>) -> Seq<int>
    decreases rewards.len(),
{
    if rewards.len() == 0 {
        seq![]
    } else {
        let rest = tips(rewards.drop_last());
        if rewards.last().len() > 0 {
            rest.push(rewards.last()[0] as int)
        } else {
            rest
        }
    }
}

/// Ascending order on integers.
pub open spec fn ascending() -> spec_fn(int, int) -> bool {
    |x: int, y: int| x <= y
}

/// The median of `s`: the element at position `len / 2` once sorted (the
/// upper one of the two middle elements for an even length), zero for an
/// empty sequence.
pub open spec fn median(s: Seq<int>) -> int {
    if s.len() == 0 {
        0
    } else {
        s.sort_by(ascending())[(s.len() / 2) as int]
    }
}

/// The suggested tip: the median tip of the window, at least `MIN_PRIORITY_FEE`.
pub open spec fn priority_fee(rewards: Seq<Seq<nat>>) -> nat {
    let m = median(tips(rewards));
    if m < MIN_PRIORITY_FEE {
        MIN_PRIORITY_FEE as nat
    } else {
        m as nat
    }
}

/// The suggested maximum fee: twice the base fee, which covers several
/// blocks of base-fee increase, plus the suggested tip.
pub open spec fn max_fee(base_fee: nat, rewards: Seq<Seq<nat>>) -> nat {
    2 * base_fee + priority_fee(rewards)
}

/// What the default heuristic returns for a base fee and a reward series.
pub open spec fn default_estimate(base_fee: nat, rewards: Seq<Seq<nat>>) -> Result<
    (nat, nat),
    EstimateError,
> {
    if max_fee(base_fee, rewards) < wei_limit() {
        Ok((max_fee(base_fee, rewards), priority_fee(rewards)))
    } else {
        Err(EstimateError::HeuristicOverflow)
    }
}

/// The view of an estimate's outcome.
pub open spec fn outcome_view(r: Result<FeeEstimate, EstimateError>) -> Result<
    (nat, nat),
    EstimateError,
> {
    match r {
        Ok(e) => Ok(e@),
        Err(err) => Err(err),
    }
}

/// The default heuristic. It takes the first reward of each block as that
/// block's tip, suggests the median tip (the upper middle one for an even
/// count, nothing counting as zero), raised to `MIN_PRIORITY_FEE` where it is
/// lower, and a maximum fee of twice the base fee plus that tip. It fails with
/// `HeuristicOverflow` where that maximum fee does not fit in 256 bits.
pub fn default_estimator(base_fee: &Wei, rewards: &Vec<Vec<Wei>>) -> (r: Result<
    FeeEstimate,
    EstimateError,
>)
    ensures
        outcome_view(r) == default_estimate(base_fee@, rewards_view(rewards@)),
        r matches Ok(e) ==> e.max_fee_per_gas@ >= e.max_priority_fee_per_gas@,
        r matches Ok(e) ==> e.max_priority_fee_per_gas@ >= MIN_PRIORITY_FEE,
{
    let sorted = sorted_tips(rewards);
    let middle = if sorted.len() == 0 {
        Wei::zero()
    } else {
        sorted[sorted.len() / 2]
    };
    proof {
        let t = tips(rewards_view(rewards@));
        if sorted.len() > 0 {
            assert(amounts(sorted@)[(sorted.len() / 2) as int] == middle@);
        }
        assert(middle@ == median(t));
    }
    let floor = Wei::from_u64(MIN_PRIORITY_FEE);
    let priority = if less_than(&middle, &floor) {
        floor
    } else {
        middle
    };
    match checked_add(base_fee, base_fee) {
        None => Err(EstimateError::HeuristicOverflow),
        Some(doubled) => match checked_add(&doubled, &priority) {
            None => Err(EstimateError::HeuristicOverflow),
            Some(max_fee_per_gas) => Ok(
                FeeEstimate { max_fee_per_gas, max_priority_fee_per_gas: priority },
            ),
        },
    }
}

/// With the default heuristic the maximum fee is never below the tip.
pub proof fn lemma_max_fee_covers_tip(base_fee: nat, rewards: Seq<Seq<nat>>)
    ensures
        default_estimate(base_fee, rewards) matches Ok((max_fee_per_gas, tip)) ==> max_fee_per_gas
            >= tip,
{
}

/// Where every reward of the window is zero, the default heuristic suggests
/// the floor `MIN_PRIORITY_FEE` as the tip, not zero.
pub proof fn lemma_zero_rewards_give_floor(rewards: Seq<Seq<nat>>)
    requires
        forall|i: int, j: int|
            0 <= i < rewards.len() && 0 <= j < rewards[i].len() ==> rewards[i][j] == 0,
    ensures
        priority_fee(rewards) == MIN_PRIORITY_FEE,
{
    let t = tips(rewards);
    lemma_tips_zero(rewards);
    if t.len() > 0 {
        lemma_ascending_total();
        t.lemma_sort_by_ensures(ascending());
        let sorted = t.sort_by(ascending());
        broadcast use group_to_multiset_ensures;

        assert(sorted.to_multiset().len() == t.to_multiset().len());
        let k = (t.len() / 2) as int;
        assert(sorted.contains(sorted[k]));
        assert(t.contains(sorted[k]));
    }
}

proof fn lemma_tips_zero(rewards: Seq<Seq<nat>>)
    requires
        forall|i: int, j: int|
            0 <= i < rewards.len() && 0 <= j < rewards[i].len() ==> rewards[i][j] == 0,
    ensures
        forall|k: int| 0 <= k < tips(rewards).len() ==> tips(rewards)[k] == 0,
    decreases rewards.len(),
{
    if rewards.len() > 0 {
        let rest = rewards.drop_last();
        assert forall|i: int, j: int|
            0 <= i < rest.len() && 0 <= j < rest[i].len() implies rest[i][j] == 0 by {
            assert(rest[i] == rewards[i]);
        }
        lemma_tips_zero(rest);
        let last = rewards[rewards.len() - 1];
        assert(rewards.last() == last);
        if last.len() > 0 {
            assert(last[0] == 0);
            assert(tips(rewards) == tips(rest).push(last[0] as int));
        }
    }
}

proof fn lemma_ascending_total()
    ensures
        total_ordering(ascending()),
{
}

proof fn lemma_insert_to_multiset(s: Seq<int>, p: int, v: int)
    requires
        0 <= p <= s.len(),
    ensures
        s.insert(p, v).to_multiset() =~= s.to_multiset().insert(v),
{
    broadcast use group_to_multiset_ensures;

    let a = s.take(p);
    let b = s.skip(p);
    assert(s =~= a + b);
    assert(s.insert(p, v) =~= a.push(v) + b);
    lemma_multiset_commutative(a.push(v), b);
    lemma_multiset_commutative(a, b);
}

/// The tips of the window (`tips`), sorted in ascending order.
fn sorted_tips(rewards: &Vec<Vec<Wei>>) -> (r: Vec<Wei>)
    ensures
        amounts(r@) == tips(rewards_view(rewards@)).sort_by(ascending()),
        r@.len() == tips(rewards_view(rewards@)).len(),
{
    let mut out: Vec<Wei> = Vec::new();
    let ghost mut seen: Seq<int> = seq![];
    let n = rewards.len();
    proof {
        broadcast use group_to_multiset_ensures;

        assert(amounts(out@) =~= seen);
    }
    for i in 0..n
        invariant
            n == rewards.len(),
            seen == tips(rewards_view(rewards@.take(i as int))),
            sorted_by(amounts(out@), ascending()),
            amounts(out@).to_multiset() == seen.to_multiset(),
    {
        proof {
            assert(rewards_view(rewards@.take(i + 1)).drop_last() =~= rewards_view(
                rewards@.take(i as int),
            ));
        }
        let block = &rewards[i];
        if block.len() > 0 {
            let x = block[0];
            let mut p: usize = 0;
            while p < out.len() && !less_than(&x, &out[p])
                invariant
                    p <= out.len(),
                    forall|j: int| 0 <= j < p ==> out@[j]@ <= x@,
                decreases out.len() - p,
            {
                p = p + 1;
            }
            let ghost before = amounts(out@);
            out.insert(p, x);
            proof {
                assert(amounts(out@) =~= before.insert(p as int, x@ as int));
                lemma_insert_to_multiset(before, p as int, x@ as int);
                seen = seen.push(x@ as int);
                broadcast use group_to_multiset_ensures;

                assert(sorted_by(amounts(out@), ascending())) by {
                    assert forall|a: int, b: int| 0 <= a < b < amounts(out@).len() implies
                        (ascending())(amounts(out@)[a], amounts(out@)[b]) by {
                        if a < p && b > p {
                            assert((ascending())(before[a], before[b - 1]));
                        } else if a > p {
                            assert((ascending())(before[a - 1], before[b - 1]));
                        } else if b < p {
                            assert((ascending())(before[a], before[b]));
                        } else if a == p && b > p {
                            assert((ascending())(before[p as int], before[b - 1]));
                        }
                    }
                }
            }
        }
    }
    proof {
        assert(rewards@.take(n as int) =~= rewards@);
        let t = tips(rewards_view(rewards@));
        lemma_ascending_total();
        t.lemma_sort_by_ensures(ascending());
        lemma_sorted_unique(amounts(out@), t.sort_by(ascending()), ascending());
        broadcast use group_to_multiset_ensures;

        assert(amounts(out@).to_multiset().len() == t.to_multiset().len());
    }
    out
}

} // verus!
