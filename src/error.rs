//! The ways in which building a chain can fail.
use vstd::prelude::*;

verus! {

/// Why a block could not be made or appended.
#[derive(Debug, Clone, Copy, PartialEq, Eq, Structural)]
pub enum ChainError {
    /// The system clock could not give the time since the Unix epoch.
    ClockUnavailable,
    /// No nonce within the allowed number of attempts met the difficulty.
    ExhaustedSearchSpace,
    /// The chain holds no block to append after.
    EmptyChain,
}

} // verus!
