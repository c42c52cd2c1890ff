//! The ways a fee estimate can fail.
use vstd::prelude::*;

verus! {

/// Why an estimate could not be made. Each kind is told apart by the caller.
#[derive(Clone, Copy, Debug, PartialEq, Eq, Structural)]
pub enum EstimateError {
    /// The node has no block for the identifier asked for.
    BlockNotFound,
    /// The block exists but carries no base fee: it predates EIP-1559.
    Eip1559NotActivated,
    /// The block lookup itself failed (network, timeout, malformed answer).
    BlockUnavailable,
    /// The node could not serve the fee history for the window.
    FeeHistoryUnavailable,
    /// The suggested maximum fee does not fit in 256 bits.
    HeuristicOverflow,
}

} // verus!
