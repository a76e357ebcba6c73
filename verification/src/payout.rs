//! The payout calculator: the deterministic integer settlement rule applied
//! to one bet against its pool's final state.
//!
//! A draw, or a token-type market with all stake on one side, refunds the
//! bet exactly.  Otherwise a losing bet forfeits its stake, and a winning
//! bet receives its proportional share of the losing side plus its
//! principal, less a basis-point fee; both divisions truncate, so rounding
//! always favors the program.  A win amount that does not fit in 64 bits is
//! rejected outright rather than wrapped.

use vstd::prelude::*;
use crate::types::{Bet, Pool, TokenType};

verus! {

/// A bet is refunded exactly when its pool is a draw, or when its token
/// type's market is degenerate: no opposing stake on one of the two sides.
pub open spec fn refund_applies(pool: Pool, t: TokenType) -> bool {
    ||| pool.is_draw
    ||| pool.totals_of(t).get(0) == 0
    ||| pool.totals_of(t).get(1) == 0
}

/// The option index that lost, given the winning one.
pub open spec fn losing_option(winning: u64) -> int {
    if winning == 0 {
        1
    } else {
        0
    }
}

/// The gross winnings of a winning bet: the proportional share of the
/// losing side's stake (truncating division) plus the principal.
pub open spec fn win_amount(amount: u64, winner_total: u64, loser_total: u64) -> int {
    amount * loser_total / (winner_total as int) + amount
}

/// The fee retained by the program: `fee_bp` basis points of the gross
/// winnings, truncating.
pub open spec fn fee_amount(win: int, fee_bp: u16) -> int {
    win * fee_bp / 10000
}

/// The gross winnings of this bet, against its own token type's totals.
pub open spec fn bet_win_amount(pool: Pool, bet: Bet) -> int {
    win_amount(
        bet.amount,
        pool.totals_of(bet.token_type).get(pool.winning_option as int),
        pool.totals_of(bet.token_type).get(losing_option(pool.winning_option)),
    )
}

/// Whether settling this bet would need a win amount above `u64::MAX`.
/// Such a claim is refused rather than settled with wrapped arithmetic.
pub open spec fn payout_overflows(pool: Pool, bet: Bet) -> bool {
    &&& !refund_applies(pool, bet.token_type)
    &&& bet.option == pool.winning_option
    &&& bet_win_amount(pool, bet) > u64::MAX
}

/// The exact amount owed for this bet: refund, zero, or net winnings.
pub open spec fn payout_value(pool: Pool, bet: Bet, fee_bp: u16) -> int {
    if refund_applies(pool, bet.token_type) {
        bet.amount as int
    } else if bet.option != pool.winning_option {
        0
    } else {
        bet_win_amount(pool, bet) - fee_amount(bet_win_amount(pool, bet), fee_bp)
    }
}

/// Computes the settlement amount for `bet` against `pool`, or `None` when
/// the win amount would not fit in 64 bits.
pub fn calculate_payout(pool: &Pool, bet: &Bet, fee_bp: u16) -> (r: Option<u64>)
    requires
        pool.wf(),
        fee_bp <= 10000,
    ensures
        r is None <==> payout_overflows(*pool, *bet),
        r matches Some(p) ==> p == payout_value(*pool, *bet, fee_bp),
{
    let totals = match bet.token_type {
        TokenType::Usdc => pool.usdc_bet_totals,
        TokenType::Points => pool.points_bet_totals,
    };
    if pool.is_draw || totals.option_zero == 0 || totals.option_one == 0 {
        return Some(bet.amount);
    }
    let winning = pool.winning_option;
    let losing: u64 = if winning == 0 { 1 } else { 0 };
    if bet.option != winning {
        return Some(0);
    }
    let winner_total: u64 = totals.amount_for(winning);
    let loser_total: u64 = totals.amount_for(losing);
    assert(bet.amount * loser_total <= u64::MAX * u64::MAX) by (nonlinear_arith)
        requires
            bet.amount <= u64::MAX,
            loser_total <= u64::MAX,
    ;
    let prod: u128 = (bet.amount as u128) * (loser_total as u128);
    assert(prod / (winner_total as u128) <= prod) by (nonlinear_arith)
        requires
            winner_total >= 1,
    ;
    let gross: u128 = prod / (winner_total as u128) + (bet.amount as u128);
    if gross > u64::MAX as u128 {
        return None;
    }
    let win: u64 = gross as u64;
    assert(win * fee_bp <= u64::MAX * 10000) by (nonlinear_arith)
        requires
            win <= u64::MAX,
            fee_bp <= 10000,
    ;
    let fee_wide: u128 = (win as u128) * (fee_bp as u128) / 10000;
    assert(win * fee_bp / 10000 <= win) by (nonlinear_arith)
        requires
            fee_bp <= 10000,
            win >= 0,
    ;
    let fee: u64 = fee_wide as u64;
    Some(win - fee)
}

/// A refunded bet is paid back exactly its original amount, fee-free.
pub proof fn lemma_refund_exact(pool: Pool, bet: Bet, fee_bp: u16)
    requires
        refund_applies(pool, bet.token_type),
    ensures
        payout_value(pool, bet, fee_bp) == bet.amount,
        !payout_overflows(pool, bet),
{
}

/// A losing bet on a non-degenerate, non-draw pool is paid nothing.
pub proof fn lemma_loss_pays_nothing(pool: Pool, bet: Bet, fee_bp: u16)
    requires
        !refund_applies(pool, bet.token_type),
        bet.option != pool.winning_option,
    ensures
        payout_value(pool, bet, fee_bp) == 0,
        !payout_overflows(pool, bet),
{
}

/// For a winning bet whose win amount fits in 64 bits, the payout never
/// exceeds the gross winnings, and the difference is exactly the
/// truncated basis-point fee.
pub proof fn lemma_win_fee_exact(pool: Pool, bet: Bet, fee_bp: u16)
    requires
        !refund_applies(pool, bet.token_type),
        bet.option == pool.winning_option,
        !payout_overflows(pool, bet),
        fee_bp <= 10000,
    ensures
        ({
            let win = bet_win_amount(pool, bet);
            let fee = fee_amount(win, fee_bp);
            &&& payout_value(pool, bet, fee_bp) == win - fee
            &&& payout_value(pool, bet, fee_bp) <= win
            &&& win - payout_value(pool, bet, fee_bp) == fee
            &&& fee == win * fee_bp / 10000
            &&& 0 <= payout_value(pool, bet, fee_bp) <= u64::MAX
        }),
{
    let a = bet.amount as int;
    let wt = pool.totals_of(bet.token_type).get(pool.winning_option as int) as int;
    let lt = pool.totals_of(bet.token_type).get(losing_option(pool.winning_option)) as int;
    let win = bet_win_amount(pool, bet);
    assert(win == a * lt / wt + a);
    assert(a * lt / wt + a >= 0) by (nonlinear_arith)
        requires
            a >= 0,
            lt >= 0,
            wt > 0,
    ;
    let fee = fee_amount(win, fee_bp);
    assert(fee == win * fee_bp / 10000);
    assert(0 <= win * fee_bp / 10000 <= win) by (nonlinear_arith)
        requires
            0 <= fee_bp <= 10000,
            win >= 0,
    ;
}

} // verus!
