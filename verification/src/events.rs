//! The event records appended for every state change.  Field order is
//! stable: the off-chain decoder reconstructs history from these records.

use vstd::prelude::*;
use crate::types::{Pubkey, TokenType};

verus! {

/// Emitted when a pool is created, with a full snapshot of the new pool.
pub struct PoolCreated {
    pub pool_id: u64,
    pub question: String,
    pub options: [String; 2],
    pub bets_close_at: i64,
    pub original_truth_social_post_id: String,
    pub image_url: String,
    pub created_at: i64,
}

/// Emitted when a bet is placed.
#[derive(Clone, Copy, Debug, PartialEq, Eq, Structural)]
pub struct BetPlaced {
    pub bet_id: u64,
    pub pool_id: u64,
    pub user: Pubkey,
    pub option_index: u64,
    pub amount: u64,
    pub token_type: TokenType,
    pub created_at: i64,
}

/// Emitted when a pool is graded and closed.
#[derive(Clone, Copy, Debug, PartialEq, Eq, Structural)]
pub struct PoolClosed {
    pub pool_id: u64,
    pub selected_option: u64,
    pub decision_time: i64,
}

/// Emitted when a payout is claimed, only if a positive amount moved.
#[derive(Clone, Copy, Debug, PartialEq, Eq, Structural)]
pub struct PayoutClaimed {
    pub bet_id: u64,
    pub pool_id: u64,
    pub user: Pubkey,
    pub amount: u64,
    pub token_type: TokenType,
}

/// Emitted when a pool's image is replaced.
pub struct PoolImageSet {
    pub pool_id: u64,
    pub image_url: String,
}

} // verus!
