//! The data model of the betting-pool ledger: the registry singleton, one
//! record per pool, one record per bet, and the identifiers and enums they
//! are built from.

use vstd::prelude::*;

verus! {

/// A 32-byte account identity, held as two 128-bit halves so that identity
/// comparison is plain integer equality.
#[derive(Clone, Copy, Debug, PartialEq, Eq, Structural)]
pub struct Pubkey {
    pub hi: u128,
    pub lo: u128,
}

/// The two settlement token types.  Stakes of the two types are accumulated
/// and settled separately and are never combined.
#[derive(Clone, Copy, Debug, PartialEq, Eq, Structural)]
pub enum TokenType {
    Usdc,
    Points,
}

/// The lifecycle of a pool.  `Pending` accepts bets, `Graded` is final.
/// `Regraded` is reserved and not reachable by any operation.
#[derive(Clone, Copy, Debug, PartialEq, Eq, Structural)]
pub enum PoolStatus {
    Pending,
    Graded,
    Regraded,
}

/// Cumulative stake per option, for one token type.
#[derive(Clone, Copy, Debug, PartialEq, Eq, Structural)]
pub struct BetTotals {
    pub option_zero: u64,
    pub option_one: u64,
}

impl BetTotals {
    /// The total staked on option `i` (0 or 1).
    pub open spec fn get(self, i: int) -> u64 {
        if i == 0 {
            self.option_zero
        } else {
            self.option_one
        }
    }

    /// Both totals combined, as a mathematical integer.
    pub open spec fn sum(self) -> int {
        self.option_zero + self.option_one
    }

    /// This pair with the total for option `i` (0 or 1) replaced by `v`.
    pub open spec fn with(self, i: int, v: u64) -> BetTotals {
        if i == 0 {
            BetTotals { option_zero: v, ..self }
        } else {
            BetTotals { option_one: v, ..self }
        }
    }

    pub fn zero() -> (r: BetTotals)
        ensures
            r == (BetTotals { option_zero: 0, option_one: 0 }),
    {
        BetTotals { option_zero: 0, option_one: 0 }
    }

    /// The total staked on option `i`.
    pub fn amount_for(&self, i: u64) -> (r: u64)
        requires
            i < 2,
        ensures
            r == self.get(i as int),
    {
        if i == 0 {
            self.option_zero
        } else {
            self.option_one
        }
    }

    /// Adds `amount` to the total for option `i`.
    pub fn accumulate(&mut self, i: u64, amount: u64)
        requires
            i < 2,
            old(self).get(i as int) + amount <= u64::MAX,
        ensures
            *final(self) == old(self).with(i as int, (old(self).get(i as int) + amount) as u64),
    {
        if i == 0 {
            self.option_zero = self.option_zero + amount;
        } else {
            self.option_one = self.option_one + amount;
        }
    }
}

/// The registry singleton: program configuration and the monotonic id
/// counters every pool and bet creation draws from.
pub struct BettingPoolsState {
    pub authority: Pubkey,
    pub usdc_mint: Pubkey,
    pub freedom_mint: Pubkey,
    pub next_pool_id: u64,
    pub next_bet_id: u64,
    pub payout_fee_bp: u16,
    pub is_initialized: bool,
}

impl BettingPoolsState {
    /// Configuration sanity: the payout fee can never exceed the whole
    /// win amount, and once initialized the id counters have been started.
    pub open spec fn wf(self) -> bool {
        &&& self.payout_fee_bp <= 10000
        &&& self.is_initialized ==> self.next_pool_id >= 1 && self.next_bet_id >= 1
    }

    /// A freshly allocated, not yet initialized registry record.
    pub fn new() -> (r: BettingPoolsState)
        ensures
            r == (BettingPoolsState {
                authority: Pubkey { hi: 0, lo: 0 },
                usdc_mint: Pubkey { hi: 0, lo: 0 },
                freedom_mint: Pubkey { hi: 0, lo: 0 },
                next_pool_id: 0,
                next_bet_id: 0,
                payout_fee_bp: 0,
                is_initialized: false,
            }),
    {
        BettingPoolsState {
            authority: Pubkey { hi: 0, lo: 0 },
            usdc_mint: Pubkey { hi: 0, lo: 0 },
            freedom_mint: Pubkey { hi: 0, lo: 0 },
            next_pool_id: 0,
            next_bet_id: 0,
            payout_fee_bp: 0,
            is_initialized: false,
        }
    }
}

/// One betting pool: a two-option question, a betting deadline, cumulative
/// stake totals per token type, and the grading outcome once decided.
pub struct Pool {
    pub id: u64,
    pub question: String,
    pub options: [String; 2],
    pub bets_close_at: i64,
    pub decision_time: i64,
    pub usdc_bet_totals: BetTotals,
    pub points_bet_totals: BetTotals,
    pub winning_option: u64,
    pub status: PoolStatus,
    pub is_draw: bool,
    pub created_at: i64,
    pub original_truth_social_post_id: String,
    pub image_url: String,
}

impl Pool {
    /// Structural sanity: the winning option is always one of the two
    /// options, whether or not it is meaningful yet.
    pub open spec fn wf(self) -> bool {
        self.winning_option < 2
    }

    /// The stake totals for one token type.
    pub open spec fn totals_of(self, t: TokenType) -> BetTotals {
        match t {
            TokenType::Usdc => self.usdc_bet_totals,
            TokenType::Points => self.points_bet_totals,
        }
    }
}

/// One wager: an amount on one option of one pool, in one token type,
/// owned by the bettor who placed it.
#[derive(Clone, Copy, Debug, PartialEq, Eq, Structural)]
pub struct Bet {
    pub id: u64,
    pub owner: Pubkey,
    pub option: u64,
    pub amount: u64,
    pub pool_id: u64,
    pub created_at: i64,
    pub updated_at: i64,
    pub is_withdrawn: bool,
    pub token_type: TokenType,
}

/// Which way a requested token movement goes, relative to program custody.
#[derive(Clone, Copy, Debug, PartialEq, Eq, Structural)]
pub enum TransferDirection {
    IntoCustody,
    OutOfCustody,
}

/// A fund movement the surrounding host must perform through the token
/// ledger within the same atomic operation.
#[derive(Clone, Copy, Debug, PartialEq, Eq, Structural)]
pub struct TokenTransfer {
    pub mint: Pubkey,
    pub amount: u64,
    pub token_type: TokenType,
    pub direction: TransferDirection,
}

} // verus!
