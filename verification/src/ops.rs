//! The operation dispatcher: the six operations that validate their
//! preconditions in a fixed order, mutate the registry, pool and bet
//! records, describe the fund movement the host must perform, and return
//! the event to append.  Every failure leaves every record unchanged.
//!
//! The surrounding host executes each operation atomically: the token
//! movement described by a returned [`TokenTransfer`] happens within the
//! same transaction, and a failed movement rolls the whole operation back.

use vstd::prelude::*;
use crate::errors::BettingPoolsError;
use crate::events::{BetPlaced, PayoutClaimed, PoolClosed, PoolCreated, PoolImageSet};
use crate::payout::{calculate_payout, payout_overflows, payout_value};
use crate::types::{
    Bet, BetTotals, BettingPoolsState, Pool, PoolStatus, Pubkey, TokenTransfer, TransferDirection,
    TokenType,
};

verus! {

/// The mint identifier the registry holds for a token type.
pub open spec fn mint_of(state: BettingPoolsState, t: TokenType) -> Pubkey {
    match t {
        TokenType::Usdc => state.usdc_mint,
        TokenType::Points => state.freedom_mint,
    }
}

/// The first failing precondition of a bet placement, in the documented
/// order, or `None` when the bet is admissible.
pub open spec fn place_bet_check(pool: Pool, option_index: u64, amount: u64, now: i64) -> Option<
    BettingPoolsError,
> {
    if now > pool.bets_close_at {
        Some(BettingPoolsError::BettingPeriodClosed)
    } else if pool.status != PoolStatus::Pending {
        Some(BettingPoolsError::PoolNotOpen)
    } else if option_index >= 2 {
        Some(BettingPoolsError::InvalidOptionIndex)
    } else if amount == 0 {
        Some(BettingPoolsError::ZeroAmount)
    } else {
        None
    }
}

/// The pool after `amount` more has been staked on option `option_index`
/// in token type `t`; only that one total changes.
pub open spec fn stake_applied(pool: Pool, t: TokenType, option_index: u64, amount: u64) -> Pool {
    match t {
        TokenType::Usdc => Pool {
            usdc_bet_totals: pool.usdc_bet_totals.with(
                option_index as int,
                (pool.usdc_bet_totals.get(option_index as int) + amount) as u64,
            ),
            ..pool
        },
        TokenType::Points => Pool {
            points_bet_totals: pool.points_bet_totals.with(
                option_index as int,
                (pool.points_bet_totals.get(option_index as int) + amount) as u64,
            ),
            ..pool
        },
    }
}

/// The pool after grading with `response_option`: 0 and 1 pick the winning
/// option, 2 declares a draw and leaves `winning_option` at its prior
/// value (harmless, since the draw takes precedence in settlement).
pub open spec fn graded_as(pool: Pool, response_option: u64, now: i64) -> Pool {
    if response_option == 2 {
        Pool { status: PoolStatus::Graded, is_draw: true, decision_time: now, ..pool }
    } else {
        Pool {
            status: PoolStatus::Graded,
            winning_option: response_option,
            decision_time: now,
            ..pool
        }
    }
}

/// The pool with only its image replaced.
pub open spec fn image_set(pool: Pool, image_url: String) -> Pool {
    Pool { image_url, ..pool }
}

/// The first failing precondition of a payout claim, in the documented
/// order, or `None` when the claim is admissible and settles.
pub open spec fn claim_check(
    state: BettingPoolsState,
    pool: Pool,
    bet: Bet,
    caller: Pubkey,
) -> Option<BettingPoolsError> {
    if pool.status != PoolStatus::Graded {
        Some(BettingPoolsError::PoolNotGraded)
    } else if bet.is_withdrawn {
        Some(BettingPoolsError::BetAlreadyWithdrawn)
    } else if caller != bet.owner {
        Some(BettingPoolsError::NotBetOwner)
    } else if payout_overflows(pool, bet) {
        Some(BettingPoolsError::PayoutOverflow)
    } else {
        None
    }
}

/// The bet after a successful claim: marked withdrawn, nothing else moved.
pub open spec fn withdrawn(bet: Bet) -> Bet {
    Bet { is_withdrawn: true, ..bet }
}

/// What a successful claim settles to.
pub struct ClaimOutcome {
    /// The settlement amount owed to the bettor (possibly zero).
    pub payout: u64,
    /// The movement out of program custody, present exactly when the
    /// payout is positive.
    pub transfer: Option<TokenTransfer>,
    /// The record to append, present exactly when a transfer happened.
    pub event: Option<PayoutClaimed>,
}

/// Creates the registry singleton.  Fails with `AlreadyInitialized` if the
/// one-shot guard is already set; otherwise stores the mints, makes the
/// caller the authority, starts both id counters at 1 and fixes the payout
/// fee at 90 basis points.
pub fn initialize(
    state: &mut BettingPoolsState,
    caller: Pubkey,
    usdc_mint: Pubkey,
    freedom_mint: Pubkey,
) -> (r: Result<(), BettingPoolsError>)
    ensures
        old(state).is_initialized ==> r == Err::<(), BettingPoolsError>(
            BettingPoolsError::AlreadyInitialized,
        ) && *final(state) == *old(state),
        !old(state).is_initialized ==> r == Ok::<(), BettingPoolsError>(()) && *final(state)
            == (BettingPoolsState {
            authority: caller,
            usdc_mint,
            freedom_mint,
            next_pool_id: 1,
            next_bet_id: 1,
            payout_fee_bp: 90,
            is_initialized: true,
        }),
        old(state).wf() ==> final(state).wf(),
{
    if state.is_initialized {
        return Err(BettingPoolsError::AlreadyInitialized);
    }
    state.is_initialized = true;
    state.authority = caller;
    state.usdc_mint = usdc_mint;
    state.freedom_mint = freedom_mint;
    state.next_pool_id = 1;
    state.next_bet_id = 1;
    state.payout_fee_bp = 90;
    Ok(())
}

/// Creates a new pool under the next pool id.  Only the authority may
/// create pools, and the betting deadline must lie strictly in the
/// future; a failed precondition does not advance the id counter.
pub fn create_pool(
    state: &mut BettingPoolsState,
    caller: Pubkey,
    question: String,
    options: [String; 2],
    bets_close_at: i64,
    original_truth_social_post_id: String,
    image_url: String,
    now: i64,
) -> (r: Result<(Pool, PoolCreated), BettingPoolsError>)
    requires
        caller == old(state).authority && bets_close_at > now ==> old(state).next_pool_id
            < u64::MAX,
    ensures
        caller != old(state).authority ==> (r matches Err(e) && e
            == BettingPoolsError::NotAuthorized && *final(state) == *old(state)),
        caller == old(state).authority && bets_close_at <= now ==> (r matches Err(e) && e
            == BettingPoolsError::BetsCloseTimeInPast && *final(state) == *old(state)),
        caller == old(state).authority && bets_close_at > now ==> ({
            &&& r is Ok
            &&& *final(state) == (BettingPoolsState {
                next_pool_id: (old(state).next_pool_id + 1) as u64,
                ..*old(state)
            })
            &&& r->Ok_0.0 == (Pool {
                id: old(state).next_pool_id,
                question,
                options,
                bets_close_at,
                decision_time: 0,
                usdc_bet_totals: BetTotals { option_zero: 0, option_one: 0 },
                points_bet_totals: BetTotals { option_zero: 0, option_one: 0 },
                winning_option: 0,
                status: PoolStatus::Pending,
                is_draw: false,
                created_at: now,
                original_truth_social_post_id,
                image_url,
            })
            &&& r->Ok_0.1.pool_id == old(state).next_pool_id
            &&& r->Ok_0.1.question == question
            &&& r->Ok_0.1.options@ =~= options@
            &&& r->Ok_0.1.bets_close_at == bets_close_at
            &&& r->Ok_0.1.original_truth_social_post_id == original_truth_social_post_id
            &&& r->Ok_0.1.image_url == image_url
            &&& r->Ok_0.1.created_at == now
        }),
        old(state).wf() ==> final(state).wf(),
{
    if !(caller == state.authority) {
        return Err(BettingPoolsError::NotAuthorized);
    }
    if bets_close_at <= now {
        return Err(BettingPoolsError::BetsCloseTimeInPast);
    }
    let pool_id = state.next_pool_id;
    state.next_pool_id = state.next_pool_id + 1;
    let event = PoolCreated {
        pool_id,
        question: question.clone(),
        options: [options[0].clone(), options[1].clone()],
        bets_close_at,
        original_truth_social_post_id: original_truth_social_post_id.clone(),
        image_url: image_url.clone(),
        created_at: now,
    };
    let pool = Pool {
        id: pool_id,
        question,
        options,
        bets_close_at,
        decision_time: 0,
        usdc_bet_totals: BetTotals::zero(),
        points_bet_totals: BetTotals::zero(),
        winning_option: 0,
        status: PoolStatus::Pending,
        is_draw: false,
        created_at: now,
        original_truth_social_post_id,
        image_url,
    };
    Ok((pool, event))
}

/// Places a bet on an open pool.  The preconditions are checked in the
/// documented order; on success the stake is recorded under the next bet
/// id, the pool's total for that token type and option grows by the
/// amount, and the returned transfer moves the stake into custody.
pub fn place_bet(
    state: &mut BettingPoolsState,
    pool: &mut Pool,
    bettor: Pubkey,
    option_index: u64,
    amount: u64,
    token_type: TokenType,
    now: i64,
) -> (r: Result<(Bet, TokenTransfer, BetPlaced), BettingPoolsError>)
    requires
        place_bet_check(*old(pool), option_index, amount, now) is None ==> old(state).next_bet_id
            < u64::MAX && old(pool).totals_of(token_type).get(option_index as int) + amount
            <= u64::MAX,
    ensures
        place_bet_check(*old(pool), option_index, amount, now) matches Some(e) ==> r == Err::<
            (Bet, TokenTransfer, BetPlaced),
            BettingPoolsError,
        >(e) && *final(state) == *old(state) && *final(pool) == *old(pool),
        place_bet_check(*old(pool), option_index, amount, now) is None ==> ({
            &&& r is Ok
            &&& r->Ok_0.0 == (Bet {
                id: old(state).next_bet_id,
                owner: bettor,
                option: option_index,
                amount,
                pool_id: old(pool).id,
                created_at: now,
                updated_at: now,
                is_withdrawn: false,
                token_type,
            })
            &&& r->Ok_0.1 == (TokenTransfer {
                mint: mint_of(*old(state), token_type),
                amount,
                token_type,
                direction: TransferDirection::IntoCustody,
            })
            &&& r->Ok_0.2 == (BetPlaced {
                bet_id: old(state).next_bet_id,
                pool_id: old(pool).id,
                user: bettor,
                option_index,
                amount,
                token_type,
                created_at: now,
            })
            &&& *final(pool) == stake_applied(*old(pool), token_type, option_index, amount)
            &&& *final(state) == (BettingPoolsState {
                next_bet_id: (old(state).next_bet_id + 1) as u64,
                ..*old(state)
            })
        }),
        old(pool).wf() ==> final(pool).wf(),
        old(state).wf() ==> final(state).wf(),
{
    if now > pool.bets_close_at {
        return Err(BettingPoolsError::BettingPeriodClosed);
    }
    if !(pool.status == PoolStatus::Pending) {
        return Err(BettingPoolsError::PoolNotOpen);
    }
    if option_index >= 2 {
        return Err(BettingPoolsError::InvalidOptionIndex);
    }
    if amount == 0 {
        return Err(BettingPoolsError::ZeroAmount);
    }
    let transfer = TokenTransfer {
        mint: if let TokenType::Usdc = token_type {
            state.usdc_mint
        } else {
            state.freedom_mint
        },
        amount,
        token_type,
        direction: TransferDirection::IntoCustody,
    };
    let bet_id = state.next_bet_id;
    let bet = Bet {
        id: bet_id,
        owner: bettor,
        option: option_index,
        amount,
        pool_id: pool.id,
        created_at: now,
        updated_at: now,
        is_withdrawn: false,
        token_type,
    };
    match token_type {
        TokenType::Usdc => pool.usdc_bet_totals.accumulate(option_index, amount),
        TokenType::Points => pool.points_bet_totals.accumulate(option_index, amount),
    }
    let event = BetPlaced {
        bet_id,
        pool_id: pool.id,
        user: bettor,
        option_index,
        amount,
        token_type,
        created_at: now,
    };
    state.next_bet_id = state.next_bet_id + 1;
    Ok((bet, transfer, event))
}

/// Grades a pool, irreversibly.  Only the authority may grade; a pool can
/// be graded at any time while it is still pending, whether or not betting
/// has closed.  A response outside {0, 1, 2} changes nothing.
pub fn grade_bet(
    state: &BettingPoolsState,
    pool: &mut Pool,
    caller: Pubkey,
    response_option: u64,
    now: i64,
) -> (r: Result<PoolClosed, BettingPoolsError>)
    ensures
        caller != state.authority ==> r == Err::<PoolClosed, BettingPoolsError>(
            BettingPoolsError::NotAuthorized,
        ) && *final(pool) == *old(pool),
        caller == state.authority && old(pool).status != PoolStatus::Pending ==> r == Err::<
            PoolClosed,
            BettingPoolsError,
        >(BettingPoolsError::PoolNotOpen) && *final(pool) == *old(pool),
        caller == state.authority && old(pool).status == PoolStatus::Pending && response_option > 2
            ==> r == Err::<PoolClosed, BettingPoolsError>(BettingPoolsError::GradingError)
            && *final(pool) == *old(pool),
        caller == state.authority && old(pool).status == PoolStatus::Pending && response_option <= 2
            ==> r == Ok::<PoolClosed, BettingPoolsError>(
            PoolClosed {
                pool_id: old(pool).id,
                selected_option: response_option,
                decision_time: now,
            },
        ) && *final(pool) == graded_as(*old(pool), response_option, now),
        old(pool).wf() ==> final(pool).wf(),
{
    if !(caller == state.authority) {
        return Err(BettingPoolsError::NotAuthorized);
    }
    if !(pool.status == PoolStatus::Pending) {
        return Err(BettingPoolsError::PoolNotOpen);
    }
    if response_option > 2 {
        return Err(BettingPoolsError::GradingError);
    }
    pool.status = PoolStatus::Graded;
    if response_option == 2 {
        pool.is_draw = true;
    } else {
        pool.winning_option = response_option;
    }
    pool.decision_time = now;
    Ok(PoolClosed { pool_id: pool.id, selected_option: response_option, decision_time: now })
}

/// Settles one bet against its graded pool.  The preconditions are checked
/// in the documented order; on success the bet is marked withdrawn and the
/// settlement amount of [`payout_value`] is owed to the bettor, moved out
/// of custody only when positive.  A claim whose win amount would not fit
/// in 64 bits is refused with `PayoutOverflow` and changes nothing.
pub fn claim_payout(
    state: &BettingPoolsState,
    pool: &Pool,
    bet: &mut Bet,
    caller: Pubkey,
) -> (r: Result<ClaimOutcome, BettingPoolsError>)
    requires
        state.wf(),
        pool.wf(),
        old(bet).pool_id == pool.id,
    ensures
        claim_check(*state, *pool, *old(bet), caller) matches Some(e) ==> (r matches Err(e2)
            && e2 == e && *final(bet) == *old(bet)),
        claim_check(*state, *pool, *old(bet), caller) is None ==> ({
            &&& r is Ok
            &&& *final(bet) == withdrawn(*old(bet))
            &&& r->Ok_0.payout == payout_value(*pool, *old(bet), state.payout_fee_bp)
            &&& r->Ok_0.payout > 0 ==> r->Ok_0.transfer == Some(
                TokenTransfer {
                    mint: mint_of(*state, old(bet).token_type),
                    amount: r->Ok_0.payout,
                    token_type: old(bet).token_type,
                    direction: TransferDirection::OutOfCustody,
                },
            ) && r->Ok_0.event == Some(
                PayoutClaimed {
                    bet_id: old(bet).id,
                    pool_id: pool.id,
                    user: old(bet).owner,
                    amount: r->Ok_0.payout,
                    token_type: old(bet).token_type,
                },
            )
            &&& r->Ok_0.payout == 0 ==> r->Ok_0.transfer is None && r->Ok_0.event is None
        }),
{
    if !(pool.status == PoolStatus::Graded) {
        return Err(BettingPoolsError::PoolNotGraded);
    }
    if bet.is_withdrawn {
        return Err(BettingPoolsError::BetAlreadyWithdrawn);
    }
    if !(caller == bet.owner) {
        return Err(BettingPoolsError::NotBetOwner);
    }
    let payout = match calculate_payout(pool, bet, state.payout_fee_bp) {
        None => {
            return Err(BettingPoolsError::PayoutOverflow);
        },
        Some(p) => p,
    };
    bet.is_withdrawn = true;
    if payout > 0 {
        let token_type = bet.token_type;
        let mint = if let TokenType::Usdc = token_type {
            state.usdc_mint
        } else {
            state.freedom_mint
        };
        Ok(ClaimOutcome {
            payout,
            transfer: Some(
                TokenTransfer {
                    mint,
                    amount: payout,
                    token_type,
                    direction: TransferDirection::OutOfCustody,
                },
            ),
            event: Some(
                PayoutClaimed {
                    bet_id: bet.id,
                    pool_id: pool.id,
                    user: bet.owner,
                    amount: payout,
                    token_type,
                },
            ),
        })
    } else {
        Ok(ClaimOutcome { payout, transfer: None, event: None })
    }
}

/// Replaces a pool's image.  Only the authority may do so; any pool
/// status, including after grading, accepts the update, and no other
/// field is touched.
pub fn set_image(
    state: &BettingPoolsState,
    pool: &mut Pool,
    caller: Pubkey,
    image_url: String,
) -> (r: Result<PoolImageSet, BettingPoolsError>)
    ensures
        caller != state.authority ==> (r matches Err(e) && e == BettingPoolsError::NotAuthorized
            && *final(pool) == *old(pool)),
        caller == state.authority ==> ({
            &&& *final(pool) == image_set(*old(pool), image_url)
            &&& r matches Ok(ev) && ev.pool_id == old(pool).id && ev.image_url == image_url
        }),
        old(pool).wf() ==> final(pool).wf(),
{
    if !(caller == state.authority) {
        return Err(BettingPoolsError::NotAuthorized);
    }
    pool.image_url = image_url.clone();
    Ok(PoolImageSet { pool_id: pool.id, image_url })
}

/// The administrative close of the registry record itself.  Authority
/// gated; reclaiming the record's storage is the host's business, and no
/// pool or bet is touched or validated.
pub fn close_betting_pool(state: &BettingPoolsState, caller: Pubkey) -> (r: Result<
    (),
    BettingPoolsError,
>)
    ensures
        caller != state.authority ==> r == Err::<(), BettingPoolsError>(
            BettingPoolsError::NotAuthorized,
        ),
        caller == state.authority ==> r == Ok::<(), BettingPoolsError>(()),
{
    if !(caller == state.authority) {
        return Err(BettingPoolsError::NotAuthorized);
    }
    Ok(())
}

} // verus!
