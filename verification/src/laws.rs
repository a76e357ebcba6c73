//! Library-wide laws, proved once over the operation models that the
//! operations' own contracts pin their effects to.

use vstd::prelude::*;
use crate::errors::BettingPoolsError;
use crate::ops::{claim_check, graded_as, image_set, stake_applied, withdrawn};
use crate::types::{Bet, BettingPoolsState, Pool, PoolStatus, Pubkey, TokenType};

verus! {

/// How far along its one-way lifecycle a status is.
pub open spec fn status_rank(s: PoolStatus) -> int {
    match s {
        PoolStatus::Pending => 0,
        PoolStatus::Graded => 1,
        PoolStatus::Regraded => 2,
    }
}

/// Every pool mutation any operation can make: unchanged, a stake
/// recorded while pending, a grading while pending, or an image update.
pub open spec fn pool_step(pre: Pool, post: Pool) -> bool {
    ||| post == pre
    ||| (pre.status == PoolStatus::Pending && exists|t: TokenType, i: u64, a: u64|
        post == #[trigger] stake_applied(pre, t, i, a))
    ||| (pre.status == PoolStatus::Pending && exists|ro: u64, d: i64|
        ro <= 2 && post == #[trigger] graded_as(pre, ro, d))
    ||| exists|img: String| post == #[trigger] image_set(pre, img)
}

/// A pool's status only ever advances, and never moves again once the
/// pool has been graded: grading is irreversible, and no operation can
/// reopen or regrade a pool.
pub proof fn lemma_status_one_way(pre: Pool, post: Pool)
    requires
        pool_step(pre, post),
    ensures
        status_rank(pre.status) <= status_rank(post.status),
        pre.status == PoolStatus::Graded ==> post.status == pre.status && post.winning_option
            == pre.winning_option && post.is_draw == pre.is_draw,
{
    if post == pre {
    } else if pre.status == PoolStatus::Pending && exists|t: TokenType, i: u64, a: u64|
        post == #[trigger] stake_applied(pre, t, i, a) {
        let (t, i, a) = choose|t: TokenType, i: u64, a: u64|
            post == #[trigger] stake_applied(pre, t, i, a);
        assert(post.status == pre.status);
    } else if pre.status == PoolStatus::Pending && exists|ro: u64, d: i64|
        ro <= 2 && post == #[trigger] graded_as(pre, ro, d) {
        let (ro, d) = choose|ro: u64, d: i64| ro <= 2 && post == #[trigger] graded_as(pre, ro, d);
        assert(post.status == PoolStatus::Graded);
    } else {
        let img = choose|img: String| post == #[trigger] image_set(pre, img);
        assert(post.status == pre.status);
    }
}

/// A recorded stake is a pool transition.
pub proof fn lemma_stake_is_step(pre: Pool, t: TokenType, option_index: u64, amount: u64)
    requires
        pre.status == PoolStatus::Pending,
    ensures
        pool_step(pre, stake_applied(pre, t, option_index, amount)),
{
}

/// A grading is a pool transition.
pub proof fn lemma_grading_is_step(pre: Pool, response_option: u64, decision_time: i64)
    requires
        pre.status == PoolStatus::Pending,
        response_option <= 2,
    ensures
        pool_step(pre, graded_as(pre, response_option, decision_time)),
{
}

/// An image update is a pool transition.
pub proof fn lemma_image_update_is_step(pre: Pool, image_url: String)
    ensures
        pool_step(pre, image_set(pre, image_url)),
{
}

/// A bet's withdrawal flag only ever moves false -> true: after a
/// successful claim the bet is withdrawn, and any later claim of the same
/// bet fails, with `BetAlreadyWithdrawn` whenever its pool is still
/// graded, so no second transfer can ever result.
pub proof fn lemma_claim_idempotent(
    state: BettingPoolsState,
    pool: Pool,
    bet: Bet,
    caller: Pubkey,
    state2: BettingPoolsState,
    pool2: Pool,
    caller2: Pubkey,
)
    requires
        claim_check(state, pool, bet, caller) is None,
    ensures
        withdrawn(bet).is_withdrawn,
        claim_check(state2, pool2, withdrawn(bet), caller2) is Some,
        pool2.status == PoolStatus::Graded ==> claim_check(state2, pool2, withdrawn(bet), caller2)
            == Some(BettingPoolsError::BetAlreadyWithdrawn),
{
}

/// One recorded stake: the arguments of one successful bet placement.
#[derive(Clone, Copy, Debug, PartialEq, Eq, Structural)]
pub struct StakeRecord {
    pub token_type: TokenType,
    pub option: u64,
    pub amount: u64,
}

/// The pool after a sequence of successful bet placements.
pub open spec fn apply_stakes(pool: Pool, stakes: Seq<StakeRecord>) -> Pool
    decreases stakes.len(),
{
    if stakes.len() == 0 {
        pool
    } else {
        apply_stakes(
            stake_applied(pool, stakes[0].token_type, stakes[0].option, stakes[0].amount),
            stakes.drop_first(),
        )
    }
}

/// The combined amount the sequence stakes in token type `t`.
pub open spec fn stakes_total(stakes: Seq<StakeRecord>, t: TokenType) -> int
    decreases stakes.len(),
{
    if stakes.len() == 0 {
        0
    } else {
        (if stakes[0].token_type == t {
            stakes[0].amount as int
        } else {
            0
        }) + stakes_total(stakes.drop_first(), t)
    }
}

/// Each stake names a real option and never wraps the running total.
pub open spec fn stakes_fit(pool: Pool, stakes: Seq<StakeRecord>) -> bool
    decreases stakes.len(),
{
    if stakes.len() == 0 {
        true
    } else {
        &&& stakes[0].option < 2
        &&& pool.totals_of(stakes[0].token_type).get(stakes[0].option as int) + stakes[0].amount
            <= u64::MAX
        &&& stakes_fit(
            stake_applied(pool, stakes[0].token_type, stakes[0].option, stakes[0].amount),
            stakes.drop_first(),
        )
    }
}

/// For every pool and token type, the two totals sum to exactly the sum
/// of all amounts staked in that token type since, and no placement ever
/// decreases either total.
pub proof fn lemma_totals_account_for_stakes(pool: Pool, stakes: Seq<StakeRecord>, t: TokenType)
    requires
        stakes_fit(pool, stakes),
    ensures
        apply_stakes(pool, stakes).totals_of(t).sum() == pool.totals_of(t).sum() + stakes_total(
            stakes,
            t,
        ),
        apply_stakes(pool, stakes).totals_of(t).get(0) >= pool.totals_of(t).get(0),
        apply_stakes(pool, stakes).totals_of(t).get(1) >= pool.totals_of(t).get(1),
    decreases stakes.len(),
{
    if stakes.len() != 0 {
        let next = stake_applied(pool, stakes[0].token_type, stakes[0].option, stakes[0].amount);
        assert(next.totals_of(t).sum() == pool.totals_of(t).sum() + if stakes[0].token_type == t {
            stakes[0].amount as int
        } else {
            0
        });
        lemma_totals_account_for_stakes(next, stakes.drop_first(), t);
    }
}

} // verus!
