//! EIP-1559 fee suggestions for a block of an Ethereum-compatible chain.
//!
//! The library holds the verified part of a fee estimate: the 256-bit fee
//! amounts (`wei`), the default heuristic that turns a block's base fee and
//! a window of recent tips into a fee pair (`heuristic`), and the decisions
//! that drive the two node queries of an estimate (`estimation`). The queries
//! themselves are made by the caller, who hands each answer back as an event.
pub mod error;
pub mod estimation;
pub mod heuristic;
pub mod wei;

pub use error::EstimateError;
pub use estimation::{
    Action,
    BlockHeader,
    BlockId,
    Estimation,
    Event,
    FeeHistory,
    Phase,
    FEE_HISTORY_BLOCKS,
    REWARD_PERCENTILE,
};
pub use heuristic::{FeeEstimate, default_estimator, MIN_PRIORITY_FEE};
pub use wei::Wei;
