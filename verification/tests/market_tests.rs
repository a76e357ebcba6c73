use betting_pools::errors::BettingPoolsError;
use betting_pools::ops::{
    claim_payout, close_betting_pool, create_pool, grade_bet, initialize, place_bet, set_image,
};
use betting_pools::payout::calculate_payout;
use betting_pools::types::{
    BettingPoolsState, Pool, PoolStatus, Pubkey, TokenType, TransferDirection,
};

fn pk(n: u128) -> Pubkey {
    Pubkey { hi: n, lo: n + 1 }
}

fn ready_state() -> BettingPoolsState {
    let mut state = BettingPoolsState::new();
    initialize(&mut state, pk(1), pk(10), pk(11)).unwrap();
    state
}

fn open_pool(state: &mut BettingPoolsState) -> Pool {
    let (pool, _ev) = create_pool(
        state,
        pk(1),
        "Will option zero win?".to_string(),
        ["Yes".to_string(), "No".to_string()],
        1_000,
        "post-1".to_string(),
        "img://one".to_string(),
        100,
    )
    .unwrap();
    pool
}

#[test]
fn initialize_sets_configuration() {
    let mut state = BettingPoolsState::new();
    assert_eq!(initialize(&mut state, pk(1), pk(10), pk(11)), Ok(()));
    assert!(state.is_initialized);
    assert_eq!(state.authority, pk(1));
    assert_eq!(state.usdc_mint, pk(10));
    assert_eq!(state.freedom_mint, pk(11));
    assert_eq!(state.next_pool_id, 1);
    assert_eq!(state.next_bet_id, 1);
    assert_eq!(state.payout_fee_bp, 90);
}

#[test]
fn initialize_twice_fails() {
    let mut state = ready_state();
    assert_eq!(
        initialize(&mut state, pk(2), pk(20), pk(21)),
        Err(BettingPoolsError::AlreadyInitialized)
    );
    assert_eq!(state.authority, pk(1));
}

#[test]
fn create_pool_assigns_id_and_advances_counter() {
    let mut state = ready_state();
    let pool = open_pool(&mut state);
    assert_eq!(pool.id, 1);
    assert_eq!(pool.status, PoolStatus::Pending);
    assert!(!pool.is_draw);
    assert_eq!(pool.usdc_bet_totals.option_zero, 0);
    assert_eq!(pool.usdc_bet_totals.option_one, 0);
    assert_eq!(pool.points_bet_totals.option_zero, 0);
    assert_eq!(pool.points_bet_totals.option_one, 0);
    assert_eq!(state.next_pool_id, 2);
}

#[test]
fn create_pool_requires_authority() {
    let mut state = ready_state();
    let r = create_pool(
        &mut state,
        pk(99),
        "q".to_string(),
        ["a".to_string(), "b".to_string()],
        1_000,
        "p".to_string(),
        "i".to_string(),
        100,
    );
    assert_eq!(r.err(), Some(BettingPoolsError::NotAuthorized));
    assert_eq!(state.next_pool_id, 1);
}

#[test]
fn create_pool_rejects_past_deadline() {
    let mut state = ready_state();
    let r = create_pool(
        &mut state,
        pk(1),
        "q".to_string(),
        ["a".to_string(), "b".to_string()],
        100,
        "p".to_string(),
        "i".to_string(),
        100,
    );
    assert_eq!(r.err(), Some(BettingPoolsError::BetsCloseTimeInPast));
    assert_eq!(state.next_pool_id, 1);
}

#[test]
fn place_bet_records_stake_and_transfer() {
    let mut state = ready_state();
    let mut pool = open_pool(&mut state);
    let (bet, transfer, event) =
        place_bet(&mut state, &mut pool, pk(5), 0, 100, TokenType::Usdc, 200).unwrap();
    assert_eq!(bet.id, 1);
    assert_eq!(bet.owner, pk(5));
    assert_eq!(bet.amount, 100);
    assert_eq!(bet.pool_id, pool.id);
    assert!(!bet.is_withdrawn);
    assert_eq!(transfer.amount, 100);
    assert_eq!(transfer.mint, pk(10));
    assert_eq!(transfer.direction, TransferDirection::IntoCustody);
    assert_eq!(event.bet_id, 1);
    assert_eq!(event.option_index, 0);
    assert_eq!(pool.usdc_bet_totals.option_zero, 100);
    assert_eq!(pool.usdc_bet_totals.option_one, 0);
    assert_eq!(state.next_bet_id, 2);
}

#[test]
fn place_bet_totals_partition_by_token_type() {
    let mut state = ready_state();
    let mut pool = open_pool(&mut state);
    place_bet(&mut state, &mut pool, pk(5), 0, 40, TokenType::Usdc, 200).unwrap();
    place_bet(&mut state, &mut pool, pk(6), 1, 60, TokenType::Usdc, 200).unwrap();
    place_bet(&mut state, &mut pool, pk(7), 0, 7, TokenType::Points, 200).unwrap();
    place_bet(&mut state, &mut pool, pk(8), 1, 13, TokenType::Points, 200).unwrap();
    // the sum of each token type's totals equals the sum of its stakes
    assert_eq!(
        pool.usdc_bet_totals.option_zero + pool.usdc_bet_totals.option_one,
        100
    );
    assert_eq!(
        pool.points_bet_totals.option_zero + pool.points_bet_totals.option_one,
        20
    );
    assert_eq!(state.next_bet_id, 5);
}

#[test]
fn place_bet_after_deadline_fails_and_changes_nothing() {
    let mut state = ready_state();
    let mut pool = open_pool(&mut state);
    let r = place_bet(&mut state, &mut pool, pk(5), 0, 100, TokenType::Usdc, 1_001);
    assert_eq!(r.err(), Some(BettingPoolsError::BettingPeriodClosed));
    assert_eq!(pool.usdc_bet_totals.option_zero, 0);
    assert_eq!(state.next_bet_id, 1);
}

#[test]
fn place_bet_on_graded_pool_fails() {
    let mut state = ready_state();
    let mut pool = open_pool(&mut state);
    grade_bet(&state, &mut pool, pk(1), 0, 500).unwrap();
    let r = place_bet(&mut state, &mut pool, pk(5), 0, 100, TokenType::Usdc, 200);
    assert_eq!(r.err(), Some(BettingPoolsError::PoolNotOpen));
}

#[test]
fn place_bet_rejects_bad_option_and_zero_amount() {
    let mut state = ready_state();
    let mut pool = open_pool(&mut state);
    let r = place_bet(&mut state, &mut pool, pk(5), 2, 100, TokenType::Usdc, 200);
    assert_eq!(r.err(), Some(BettingPoolsError::InvalidOptionIndex));
    let r = place_bet(&mut state, &mut pool, pk(5), 1, 0, TokenType::Usdc, 200);
    assert_eq!(r.err(), Some(BettingPoolsError::ZeroAmount));
    assert_eq!(state.next_bet_id, 1);
}

#[test]
fn grade_bet_is_one_way() {
    let mut state = ready_state();
    let mut pool = open_pool(&mut state);
    let ev = grade_bet(&state, &mut pool, pk(1), 1, 500).unwrap();
    assert_eq!(pool.status, PoolStatus::Graded);
    assert_eq!(pool.winning_option, 1);
    assert_eq!(pool.decision_time, 500);
    assert_eq!(ev.selected_option, 1);
    assert_eq!(ev.decision_time, 500);
    // a second grading always fails and moves nothing
    let r = grade_bet(&state, &mut pool, pk(1), 0, 600);
    assert_eq!(r.err(), Some(BettingPoolsError::PoolNotOpen));
    assert_eq!(pool.status, PoolStatus::Graded);
    assert_eq!(pool.winning_option, 1);
}

#[test]
fn grade_bet_rejects_bad_response_without_transition() {
    let mut state = ready_state();
    let mut pool = open_pool(&mut state);
    let r = grade_bet(&state, &mut pool, pk(1), 3, 500);
    assert_eq!(r.err(), Some(BettingPoolsError::GradingError));
    assert_eq!(pool.status, PoolStatus::Pending);
    assert!(!pool.is_draw);
}

#[test]
fn grade_bet_requires_authority() {
    let mut state = ready_state();
    let mut pool = open_pool(&mut state);
    let r = grade_bet(&state, &mut pool, pk(99), 0, 500);
    assert_eq!(r.err(), Some(BettingPoolsError::NotAuthorized));
    assert_eq!(pool.status, PoolStatus::Pending);
}

#[test]
fn winning_bet_pays_share_minus_fee() {
    // option 0 holds 100 (one bettor), option 1 holds 300; graded 0 at 90 bp
    let mut state = ready_state();
    let mut pool = open_pool(&mut state);
    let (mut bet_win, _t, _e) =
        place_bet(&mut state, &mut pool, pk(5), 0, 100, TokenType::Usdc, 200).unwrap();
    place_bet(&mut state, &mut pool, pk(6), 1, 250, TokenType::Usdc, 200).unwrap();
    place_bet(&mut state, &mut pool, pk(7), 1, 50, TokenType::Usdc, 200).unwrap();
    grade_bet(&state, &mut pool, pk(1), 0, 500).unwrap();
    let outcome = claim_payout(&state, &pool, &mut bet_win, pk(5)).unwrap();
    // win = 100 * 300 / 100 + 100 = 400; fee = floor(400 * 90 / 10000) = 3
    assert_eq!(outcome.payout, 397);
    let transfer = outcome.transfer.unwrap();
    assert_eq!(transfer.amount, 397);
    assert_eq!(transfer.mint, pk(10));
    assert_eq!(transfer.direction, TransferDirection::OutOfCustody);
    let event = outcome.event.unwrap();
    assert_eq!(event.amount, 397);
    assert_eq!(event.user, pk(5));
    assert!(bet_win.is_withdrawn);
}

#[test]
fn losing_bet_pays_nothing_and_moves_nothing() {
    let mut state = ready_state();
    let mut pool = open_pool(&mut state);
    place_bet(&mut state, &mut pool, pk(5), 0, 100, TokenType::Usdc, 200).unwrap();
    let (mut bet_lose, _t, _e) =
        place_bet(&mut state, &mut pool, pk(6), 1, 50, TokenType::Usdc, 200).unwrap();
    place_bet(&mut state, &mut pool, pk(7), 1, 250, TokenType::Usdc, 200).unwrap();
    grade_bet(&state, &mut pool, pk(1), 0, 500).unwrap();
    let outcome = claim_payout(&state, &pool, &mut bet_lose, pk(6)).unwrap();
    assert_eq!(outcome.payout, 0);
    assert!(outcome.transfer.is_none());
    assert!(outcome.event.is_none());
    assert!(bet_lose.is_withdrawn);
}

#[test]
fn draw_refunds_every_bet_exactly() {
    let mut state = ready_state();
    let mut pool = open_pool(&mut state);
    let (mut bet_a, _t, _e) =
        place_bet(&mut state, &mut pool, pk(5), 0, 123, TokenType::Usdc, 200).unwrap();
    let (mut bet_b, _t, _e) =
        place_bet(&mut state, &mut pool, pk(6), 1, 77, TokenType::Usdc, 200).unwrap();
    grade_bet(&state, &mut pool, pk(1), 2, 500).unwrap();
    assert!(pool.is_draw);
    // a draw leaves winning_option at its default; the draw takes precedence
    assert_eq!(pool.winning_option, 0);
    let out_a = claim_payout(&state, &pool, &mut bet_a, pk(5)).unwrap();
    let out_b = claim_payout(&state, &pool, &mut bet_b, pk(6)).unwrap();
    assert_eq!(out_a.payout, 123);
    assert_eq!(out_b.payout, 77);
}

#[test]
fn one_sided_market_refunds_stake() {
    let mut state = ready_state();
    let mut pool = open_pool(&mut state);
    let (mut bet, _t, _e) =
        place_bet(&mut state, &mut pool, pk(5), 0, 500, TokenType::Points, 200).unwrap();
    grade_bet(&state, &mut pool, pk(1), 0, 500).unwrap();
    let outcome = claim_payout(&state, &pool, &mut bet, pk(5)).unwrap();
    // option 1 held nothing, so the degenerate market refunds, not pays out
    assert_eq!(outcome.payout, 500);
    assert_eq!(outcome.transfer.unwrap().mint, pk(11));
}

#[test]
fn second_claim_fails_without_transfer() {
    let mut state = ready_state();
    let mut pool = open_pool(&mut state);
    let (mut bet, _t, _e) =
        place_bet(&mut state, &mut pool, pk(5), 0, 123, TokenType::Usdc, 200).unwrap();
    grade_bet(&state, &mut pool, pk(1), 2, 500).unwrap();
    claim_payout(&state, &pool, &mut bet, pk(5)).unwrap();
    let r = claim_payout(&state, &pool, &mut bet, pk(5));
    assert_eq!(r.err(), Some(BettingPoolsError::BetAlreadyWithdrawn));
    assert!(bet.is_withdrawn);
}

#[test]
fn claim_before_grading_fails() {
    let mut state = ready_state();
    let mut pool = open_pool(&mut state);
    let (mut bet, _t, _e) =
        place_bet(&mut state, &mut pool, pk(5), 0, 10, TokenType::Usdc, 200).unwrap();
    let r = claim_payout(&state, &pool, &mut bet, pk(5));
    assert_eq!(r.err(), Some(BettingPoolsError::PoolNotGraded));
    assert!(!bet.is_withdrawn);
}

#[test]
fn claim_by_non_owner_fails() {
    let mut state = ready_state();
    let mut pool = open_pool(&mut state);
    let (mut bet, _t, _e) =
        place_bet(&mut state, &mut pool, pk(5), 0, 10, TokenType::Usdc, 200).unwrap();
    grade_bet(&state, &mut pool, pk(1), 0, 500).unwrap();
    let r = claim_payout(&state, &pool, &mut bet, pk(99));
    assert_eq!(r.err(), Some(BettingPoolsError::NotBetOwner));
    assert!(!bet.is_withdrawn);
}

#[test]
fn oversized_win_is_refused_not_wrapped() {
    let mut state = ready_state();
    let mut pool = open_pool(&mut state);
    let (mut bet, _t, _e) =
        place_bet(&mut state, &mut pool, pk(5), 0, u64::MAX, TokenType::Usdc, 200).unwrap();
    place_bet(&mut state, &mut pool, pk(6), 1, u64::MAX, TokenType::Usdc, 200).unwrap();
    grade_bet(&state, &mut pool, pk(1), 0, 500).unwrap();
    let r = claim_payout(&state, &pool, &mut bet, pk(5));
    assert_eq!(r.err(), Some(BettingPoolsError::PayoutOverflow));
    assert!(!bet.is_withdrawn);
}

#[test]
fn calculate_payout_truncates_in_the_programs_favor() {
    let mut state = ready_state();
    let mut pool = open_pool(&mut state);
    let (bet, _t, _e) =
        place_bet(&mut state, &mut pool, pk(5), 0, 3, TokenType::Usdc, 200).unwrap();
    place_bet(&mut state, &mut pool, pk(6), 0, 4, TokenType::Usdc, 200).unwrap();
    place_bet(&mut state, &mut pool, pk(7), 1, 10, TokenType::Usdc, 200).unwrap();
    grade_bet(&state, &mut pool, pk(1), 0, 500).unwrap();
    // win = 3 * 10 / 7 + 3 = 7 (30 / 7 truncates to 4); fee = floor(7 * 90 / 10000) = 0
    assert_eq!(calculate_payout(&pool, &bet, state.payout_fee_bp), Some(7));
}

#[test]
fn set_image_replaces_only_the_image() {
    let mut state = ready_state();
    let mut pool = open_pool(&mut state);
    grade_bet(&state, &mut pool, pk(1), 0, 500).unwrap();
    let ev = set_image(&state, &mut pool, pk(1), "img://two".to_string()).unwrap();
    assert_eq!(pool.image_url, "img://two");
    assert_eq!(ev.image_url, "img://two");
    assert_eq!(ev.pool_id, pool.id);
    assert_eq!(pool.status, PoolStatus::Graded);
    let r = set_image(&state, &mut pool, pk(9), "img://three".to_string());
    assert_eq!(r.err(), Some(BettingPoolsError::NotAuthorized));
    assert_eq!(pool.image_url, "img://two");
}

#[test]
fn close_betting_pool_is_authority_gated() {
    let state = ready_state();
    assert_eq!(close_betting_pool(&state, pk(1)), Ok(()));
    assert_eq!(
        close_betting_pool(&state, pk(2)),
        Err(BettingPoolsError::NotAuthorized)
    );
}

#[test]
fn ids_are_unique_and_monotonic_across_the_deployment() {
    let mut state = ready_state();
    let mut pool_a = open_pool(&mut state);
    let mut pool_b = open_pool(&mut state);
    assert_eq!(pool_a.id, 1);
    assert_eq!(pool_b.id, 2);
    // bet ids draw from one global counter, across pools
    let (bet1, _t, _e) =
        place_bet(&mut state, &mut pool_a, pk(5), 0, 10, TokenType::Usdc, 200).unwrap();
    let (bet2, _t, _e) =
        place_bet(&mut state, &mut pool_b, pk(5), 0, 10, TokenType::Usdc, 200).unwrap();
    let (bet3, _t, _e) =
        place_bet(&mut state, &mut pool_a, pk(6), 1, 10, TokenType::Usdc, 200).unwrap();
    assert_eq!(bet1.id, 1);
    assert_eq!(bet2.id, 2);
    assert_eq!(bet3.id, 3);
    assert_eq!(bet1.pool_id, pool_a.id);
    assert_eq!(bet2.pool_id, pool_b.id);
}

#[test]
fn error_messages_match_taxonomy() {
    assert_eq!(
        BettingPoolsError::BetsCloseTimeInPast.message(),
        "Bets close time must be in the future"
    );
    assert_eq!(
        BettingPoolsError::TokenTransferFailed.message(),
        "Token transfer failed"
    );
    assert_eq!(
        BettingPoolsError::BetAlreadyWithdrawn.message(),
        "Bet already withdrawn"
    );
}

#[test]
fn claim_respects_token_type_partition() {
    // the same pool holds a degenerate points market and a two-sided usdc one
    let mut state = ready_state();
    let mut pool = open_pool(&mut state);
    place_bet(&mut state, &mut pool, pk(5), 0, 100, TokenType::Usdc, 200).unwrap();
    place_bet(&mut state, &mut pool, pk(6), 1, 100, TokenType::Usdc, 200).unwrap();
    let (mut points_bet, _t, _e) =
        place_bet(&mut state, &mut pool, pk(7), 1, 40, TokenType::Points, 200).unwrap();
    grade_bet(&state, &mut pool, pk(1), 0, 500).unwrap();
    // a losing points bet is refunded: its own token type has no opposing stake
    let outcome = claim_payout(&state, &pool, &mut points_bet, pk(7)).unwrap();
    assert_eq!(outcome.payout, 40);
    assert_eq!(outcome.transfer.unwrap().mint, pk(11));
}
