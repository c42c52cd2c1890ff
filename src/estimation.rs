//! The decisions of one fee estimate, as a state machine.
//!
//! An estimate asks the node two things in turn: the block's header, for its
//! base fee, and the fee history of the window that ends at the block. The
//! caller makes each request that an `Action` names and hands the answer back
//! as an `Event`; the machine fails fast on the first failed or unusable
//! answer and never asks for the history of a block it could not use.
use vstd::prelude::*;
use crate::error::EstimateError;
use crate::heuristic::{
    FeeEstimate,
    default_estimator,
    default_estimate,
    outcome_view,
    rewards_view,
};
use crate::wei::Wei;

verus! {

/// How many trailing blocks the fee history covers.
pub const FEE_HISTORY_BLOCKS: u64 = 10;

/// The reward percentile asked of each block of the fee history: the fifth,
/// the low end of the tips that recent blocks accepted.
pub const REWARD_PERCENTILE: u64 = 5;

/// Which block an estimate is for.
#[derive(Clone, Copy, Debug, PartialEq, Eq, Structural)]
pub enum BlockId {
    Latest,
    Pending,
    Earliest,
    Number(u64),
}

/// What an estimate reads of a block header.
#[derive(Clone, Copy, Debug)]
pub struct BlockHeader {
    /// The base fee; absent on blocks before EIP-1559.
    pub base_fee_per_gas: Option<Wei>,
}

/// What an estimate reads of a fee history.
#[derive(Debug)]
pub struct FeeHistory {
    /// One sequence per block of the window, holding the reward at each
    /// percentile asked for.
    pub reward: Vec<Vec<Wei>>,
}

/// What the node answered.
#[derive(Debug)]
pub enum Event {
    /// The block lookup answered: the header, or nothing where the node has no
    /// such block.
    Block(Option<BlockHeader>),
    /// The block lookup failed.
    BlockFailed,
    /// The fee-history lookup answered.
    FeeHistory(FeeHistory),
    /// The fee-history lookup failed.
    FeeHistoryFailed,
}

/// What the caller is to do next.
#[derive(Clone, Copy, Debug)]
pub enum Action {
    /// Look the block up.
    FetchBlock(BlockId),
    /// Ask for the fee history of `block_count` blocks ending at
    /// `newest_block`, at the one percentile `reward_percentile`.
    FetchFeeHistory { block_count: u64, newest_block: BlockId, reward_percentile: u64 },
    /// The estimate is over, with this outcome.
    Done(Result<FeeEstimate, EstimateError>),
}

/// Where an estimate stands.
#[derive(Clone, Copy, Debug)]
pub enum Phase {
    /// Waiting for the block.
    FetchingBlock,
    /// The block had this base fee; waiting for the fee history.
    FetchingFeeHistory(Wei),
    /// Over, with this outcome.
    Finished(Result<FeeEstimate, EstimateError>),
}

/// One fee estimate for `block`.
#[derive(Clone, Copy, Debug)]
pub struct Estimation {
    pub block: BlockId,
    pub phase: Phase,
}

/// The fee-history request for the window that ends at `block`.
pub open spec fn history_request(block: BlockId) -> Action {
    Action::FetchFeeHistory {
        block_count: FEE_HISTORY_BLOCKS,
        newest_block: block,
        reward_percentile: REWARD_PERCENTILE,
    }
}

/// The phase that follows the block lookup's answer.
pub open spec fn after_block(event: Event) -> Phase {
    match event {
        Event::Block(None) => Phase::Finished(Err(EstimateError::BlockNotFound)),
        Event::Block(Some(header)) => match header.base_fee_per_gas {
            None => Phase::Finished(Err(EstimateError::Eip1559NotActivated)),
            Some(base_fee) => Phase::FetchingFeeHistory(base_fee),
        },
        _ => Phase::Finished(Err(EstimateError::BlockUnavailable)),
    }
}

/// Whether `event` answers what `phase` waits for.
pub open spec fn answers(phase: Phase, event: Event) -> bool {
    match phase {
        Phase::FetchingBlock => event is Block || event is BlockFailed,
        Phase::FetchingFeeHistory(_) => event is FeeHistory || event is FeeHistoryFailed,
        Phase::Finished(_) => false,
    }
}

impl Estimation {
    /// The action this estimate waits on: the request of its phase, or its
    /// outcome once it is over.
    pub open spec fn next_action(&self) -> Action {
        match self.phase {
            Phase::FetchingBlock => Action::FetchBlock(self.block),
            Phase::FetchingFeeHistory(_) => history_request(self.block),
            Phase::Finished(r) => Action::Done(r),
        }
    }

    /// A new estimate for `block`, which starts with the block lookup.
    pub fn new(block: BlockId) -> (r: Estimation)
        ensures
            r.block == block,
            r.phase is FetchingBlock,
            r.next_action() == Action::FetchBlock(block),
    {
        Estimation { block, phase: Phase::FetchingBlock }
    }

    /// The action this estimate waits on.
    pub fn action(&self) -> (a: Action)
        ensures
            a == self.next_action(),
    {
        match self.phase {
            Phase::FetchingBlock => Action::FetchBlock(self.block),
            Phase::FetchingFeeHistory(_) => Action::FetchFeeHistory {
                block_count: FEE_HISTORY_BLOCKS,
                newest_block: self.block,
                reward_percentile: REWARD_PERCENTILE,
            },
            Phase::Finished(r) => Action::Done(r),
        }
    }

    /// Takes the node's answer and returns what to do next, with the default
    /// heuristic (`default_estimator`). An answer to a question that is not
    /// pending is ignored.
    pub fn step(&mut self, event: Event) -> (a: Action)
        ensures
            final(self).block == old(self).block,
            a == final(self).next_action(),
            !answers(old(self).phase, event) ==> final(self).phase == old(self).phase,
            old(self).phase is FetchingBlock && answers(old(self).phase, event)
                ==> final(self).phase == after_block(event),
            old(self).phase is FetchingFeeHistory && event is FeeHistoryFailed
                ==> final(self).phase == Phase::Finished(
                Err(EstimateError::FeeHistoryUnavailable),
            ),
            old(self).phase matches Phase::FetchingFeeHistory(base_fee) ==> (event matches Event::FeeHistory(h)
                ==> (final(self).phase matches Phase::Finished(r) && outcome_view(r)
                == default_estimate(base_fee@, rewards_view(h.reward@)))),
    {
        match (self.phase, event) {
            (Phase::FetchingFeeHistory(base_fee), Event::FeeHistory(history)) => {
                self.phase = Phase::Finished(default_estimator(&base_fee, &history.reward));
            },
            (_, other) => self.take_plain_answer(other),
        }
        self.action()
    }

    /// Takes the node's answer and returns what to do next, with `heuristic`
    /// in place of the default one. Whatever the heuristic returns for the
    /// base fee and the reward series becomes the outcome as it is.
    pub fn step_with<H>(&mut self, event: Event, heuristic: H) -> (a: Action) where
        H: Fn(Wei, Vec<Vec<Wei>>) -> FeeEstimate,
        requires
            forall|b: Wei, r: Vec<Vec<Wei>>| call_requires(heuristic, (b, r)),
        ensures
            final(self).block == old(self).block,
            a == final(self).next_action(),
            !answers(old(self).phase, event) ==> final(self).phase == old(self).phase,
            old(self).phase is FetchingBlock && answers(old(self).phase, event)
                ==> final(self).phase == after_block(event),
            old(self).phase is FetchingFeeHistory && event is FeeHistoryFailed
                ==> final(self).phase == Phase::Finished(
                Err(EstimateError::FeeHistoryUnavailable),
            ),
            old(self).phase matches Phase::FetchingFeeHistory(base_fee) ==> (event matches Event::FeeHistory(h)
                ==> (final(self).phase matches Phase::Finished(r) && r matches Ok(e)
                && call_ensures(heuristic, (base_fee, h.reward), e))),
    {
        match (self.phase, event) {
            (Phase::FetchingFeeHistory(base_fee), Event::FeeHistory(history)) => {
                let e = heuristic(base_fee, history.reward);
                self.phase = Phase::Finished(Ok(e));
            },
            (_, other) => self.take_plain_answer(other),
        }
        self.action()
    }

    /// Every transition but the one that runs a heuristic.
    fn take_plain_answer(&mut self, event: Event)
        requires
            !(old(self).phase is FetchingFeeHistory && event is FeeHistory),
        ensures
            final(self).block == old(self).block,
            !answers(old(self).phase, event) ==> final(self).phase == old(self).phase,
            old(self).phase is FetchingBlock && answers(old(self).phase, event)
                ==> final(self).phase == after_block(event),
            old(self).phase is FetchingFeeHistory && event is FeeHistoryFailed
                ==> final(self).phase == Phase::Finished(
                Err(EstimateError::FeeHistoryUnavailable),
            ),
    {
        match (self.phase, event) {
            (Phase::FetchingBlock, Event::Block(None)) => {
                self.phase = Phase::Finished(Err(EstimateError::BlockNotFound));
            },
            (Phase::FetchingBlock, Event::Block(Some(header))) => {
                match header.base_fee_per_gas {
                    None => {
                        self.phase = Phase::Finished(Err(EstimateError::Eip1559NotActivated));
                    },
                    Some(base_fee) => {
                        self.phase = Phase::FetchingFeeHistory(base_fee);
                    },
                }
            },
            (Phase::FetchingBlock, Event::BlockFailed) => {
                self.phase = Phase::Finished(Err(EstimateError::BlockUnavailable));
            },
            (Phase::FetchingFeeHistory(_), Event::FeeHistoryFailed) => {
                self.phase = Phase::Finished(Err(EstimateError::FeeHistoryUnavailable));
            },
            _ => {},
        }
    }
}

/// A block the node reports as absent ends the estimate with `BlockNotFound`,
/// and no fee history is asked for.
pub proof fn lemma_missing_block_fails_fast(block: BlockId)
    ensures
        (Estimation { block, phase: after_block(Event::Block(None)) }).next_action()
            == Action::Done(Err(EstimateError::BlockNotFound)),
        !((Estimation { block, phase: after_block(Event::Block(None)) }).next_action() is FetchFeeHistory),
{
}

/// A block without a base fee ends the estimate with `Eip1559NotActivated`,
/// and no fee history is asked for.
pub proof fn lemma_pre_fork_block_fails_fast(block: BlockId, header: BlockHeader)
    requires
        header.base_fee_per_gas is None,
    ensures
        (Estimation { block, phase: after_block(Event::Block(Some(header))) }).next_action()
            == Action::Done(Err(EstimateError::Eip1559NotActivated)),
        !((Estimation { block, phase: after_block(Event::Block(Some(header))) }).next_action() is FetchFeeHistory),
{
}

/// Two estimates that saw the same base fee and the same reward series end
/// alike: with the default heuristic the outcome is a function of what was
/// fetched, whatever limbs carried it.
pub proof fn lemma_estimate_repeatable(
    base1: Wei,
    history1: FeeHistory,
    outcome1: Result<FeeEstimate, EstimateError>,
    base2: Wei,
    history2: FeeHistory,
    outcome2: Result<FeeEstimate, EstimateError>,
)
    requires
        base1@ == base2@,
        rewards_view(history1.reward@) == rewards_view(history2.reward@),
        outcome_view(outcome1) == default_estimate(base1@, rewards_view(history1.reward@)),
        outcome_view(outcome2) == default_estimate(base2@, rewards_view(history2.reward@)),
    ensures
        outcome_view(outcome1) == outcome_view(outcome2),
{
}

} // verus!
