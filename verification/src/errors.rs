//! The failure taxonomy of the betting-pool operations.  Every failure aborts
//! the operation it arose in with no state change.

use vstd::prelude::*;

verus! {

/// Why a betting-pool operation was refused.
///
/// `PayoutOverflow` is reported when the proportional win amount of a claim
/// does not fit in 64 bits: the claim is rejected outright rather than
/// settled with wrapped arithmetic.
#[derive(Clone, Copy, Debug, PartialEq, Eq, Structural)]
pub enum BettingPoolsError {
    BetsCloseTimeInPast,
    PoolNotOpen,
    BettingPeriodClosed,
    InvalidOptionIndex,
    AlreadyInitialized,
    ZeroAmount,
    NotAuthorized,
    TokenTransferFailed,
    PoolNotGraded,
    GradingError,
    BetAlreadyWithdrawn,
    NotBetOwner,
    PayoutOverflow,
}

impl BettingPoolsError {
    /// A human-readable description of the failure.
    pub fn message(&self) -> (r: &'static str)
        ensures
            r@ == self.message_spec(),
    {
        match self {
            BettingPoolsError::BetsCloseTimeInPast => "Bets close time must be in the future",
            BettingPoolsError::PoolNotOpen => "Pool is not open",
            BettingPoolsError::BettingPeriodClosed => "Betting period is closed",
            BettingPoolsError::InvalidOptionIndex => "Invalid option index",
            BettingPoolsError::AlreadyInitialized => "BettingPools is already initialized",
            BettingPoolsError::ZeroAmount => "Zero amount",
            BettingPoolsError::NotAuthorized => "Not authorized",
            BettingPoolsError::TokenTransferFailed => "Token transfer failed",
            BettingPoolsError::PoolNotGraded => "Pool is not graded",
            BettingPoolsError::GradingError => "Grading error",
            BettingPoolsError::BetAlreadyWithdrawn => "Bet already withdrawn",
            BettingPoolsError::NotBetOwner => "Not bet owner",
            BettingPoolsError::PayoutOverflow => "Payout amount overflow",
        }
    }

    /// The message each failure carries, as a sequence of characters.
    pub open spec fn message_spec(&self) -> Seq<char> {
        match self {
            BettingPoolsError::BetsCloseTimeInPast => "Bets close time must be in the future"@,
            BettingPoolsError::PoolNotOpen => "Pool is not open"@,
            BettingPoolsError::BettingPeriodClosed => "Betting period is closed"@,
            BettingPoolsError::InvalidOptionIndex => "Invalid option index"@,
            BettingPoolsError::AlreadyInitialized => "BettingPools is already initialized"@,
            BettingPoolsError::ZeroAmount => "Zero amount"@,
            BettingPoolsError::NotAuthorized => "Not authorized"@,
            BettingPoolsError::TokenTransferFailed => "Token transfer failed"@,
            BettingPoolsError::PoolNotGraded => "Pool is not graded"@,
            BettingPoolsError::GradingError => "Grading error"@,
            BettingPoolsError::BetAlreadyWithdrawn => "Bet already withdrawn"@,
            BettingPoolsError::NotBetOwner => "Not bet owner"@,
            BettingPoolsError::PayoutOverflow => "Payout amount overflow"@,
        }
    }
}

} // verus!
