//! The structured records the decoder produces: one record type per event
//! and per instruction call, and the container holding everything decoded
//! from one block, ready for downstream analytics.

use vstd::prelude::*;
use vstd::string::StringExecFns;

verus! {

/// Everything decoded from one block of transactions.
#[derive(Clone, Debug, PartialEq, Default)]
pub struct Data {
    pub bet_placed_event_list: Vec<BetPlacedEvent>,
    pub payout_claimed_event_list: Vec<PayoutClaimedEvent>,
    pub pool_closed_event_list: Vec<PoolClosedEvent>,
    pub pool_created_event_list: Vec<PoolCreatedEvent>,
    pub pool_image_set_event_list: Vec<PoolImageSetEvent>,
    pub claim_payout_instruction_list: Vec<ClaimPayoutInstruction>,
    pub create_pool_instruction_list: Vec<CreatePoolInstruction>,
    pub grade_bet_instruction_list: Vec<GradeBetInstruction>,
    pub initialize_instruction_list: Vec<InitializeInstruction>,
    pub place_bet_instruction_list: Vec<PlaceBetInstruction>,
    pub set_image_instruction_list: Vec<SetImageInstruction>,
}

#[derive(Clone, Debug, PartialEq)]
pub struct BetPlacedEvent {
    pub trx_hash: String,
    pub bet_id: u64,
    pub pool_id: u64,
    pub user: String,
    pub option_index: u64,
    pub amount: u64,
    pub token_type: i32,
    pub created_at: i64,
}

#[derive(Clone, Debug, PartialEq)]
pub struct PayoutClaimedEvent {
    pub trx_hash: String,
    pub bet_id: u64,
    pub pool_id: u64,
    pub user: String,
    pub amount: u64,
    pub token_type: i32,
}

#[derive(Clone, Debug, PartialEq)]
pub struct PoolClosedEvent {
    pub trx_hash: String,
    pub pool_id: u64,
    pub selected_option: u64,
    pub decision_time: i64,
}

#[derive(Clone, Debug, PartialEq)]
pub struct PoolCreatedEvent {
    pub trx_hash: String,
    pub pool_id: u64,
    pub question: String,
    pub options: Vec<String>,
    pub bets_close_at: i64,
    pub original_truth_social_post_id: String,
    pub image_url: String,
    pub created_at: i64,
}

#[derive(Clone, Debug, PartialEq)]
pub struct PoolImageSetEvent {
    pub trx_hash: String,
    pub pool_id: u64,
    pub image_url: String,
}

#[derive(Clone, Debug, PartialEq)]
pub struct ClaimPayoutInstruction {
    pub trx_hash: String,
    pub acct_betting_pools: String,
    pub acct_pool: String,
    pub acct_bet: String,
    pub acct_bettor: String,
    pub acct_bettor_token_account: String,
    pub acct_program_token_account: String,
}

#[derive(Clone, Debug, PartialEq)]
pub struct CreatePoolInstruction {
    pub trx_hash: String,
    pub question: String,
    pub options: Vec<String>,
    pub bets_close_at: i64,
    pub original_truth_social_post_id: String,
    pub image_url: String,
    pub acct_betting_pools: String,
    pub acct_pool: String,
    pub acct_authority: String,
}

#[derive(Clone, Debug, PartialEq)]
pub struct GradeBetInstruction {
    pub trx_hash: String,
    pub response_option: u64,
    pub acct_betting_pools: String,
    pub acct_pool: String,
    pub acct_authority: String,
}

#[derive(Clone, Debug, PartialEq)]
pub struct InitializeInstruction {
    pub trx_hash: String,
    pub usdc_mint: String,
    pub freedom_mint: String,
    pub acct_betting_pools: String,
    pub acct_authority: String,
}

#[derive(Clone, Debug, PartialEq)]
pub struct PlaceBetInstruction {
    pub trx_hash: String,
    pub option_index: u64,
    pub amount: u64,
    pub token_type: i32,
    pub acct_betting_pools: String,
    pub acct_pool: String,
    pub acct_bet: String,
    pub acct_bettor: String,
    pub acct_bettor_token_account: String,
    pub acct_program_token_account: String,
}

#[derive(Clone, Debug, PartialEq)]
pub struct SetImageInstruction {
    pub trx_hash: String,
    pub image_url: String,
    pub acct_pool: String,
    pub acct_betting_pools: String,
    pub acct_authority: String,
}

/// The token type as the decoder's records carry it.
#[derive(Clone, Copy, Debug, PartialEq, Eq, Hash, PartialOrd, Ord)]
pub enum TokenTypeEnum {
    TokenTypeUsdc,
    TokenTypePoints,
}

/// The field name `from_str_name` recognizes for each variant.
pub open spec fn token_type_name(t: TokenTypeEnum) -> Seq<char> {
    match t {
        TokenTypeEnum::TokenTypeUsdc => "TOKEN_TYPE_USDC"@,
        TokenTypeEnum::TokenTypePoints => "TOKEN_TYPE_POINTS"@,
    }
}

impl TokenTypeEnum {
    /// String value of the enum field names used in the wire definition.
    pub fn as_str_name(&self) -> (r: &'static str)
        ensures
            r@ == token_type_name(*self),
    {
        match self {
            TokenTypeEnum::TokenTypeUsdc => "TOKEN_TYPE_USDC",
            TokenTypeEnum::TokenTypePoints => "TOKEN_TYPE_POINTS",
        }
    }

    /// Creates the enum from a field name used in the wire definition.
    pub fn from_str_name(value: &str) -> (r: Option<TokenTypeEnum>)
        ensures
            r == (if value@ == token_type_name(TokenTypeEnum::TokenTypeUsdc) {
                Some(TokenTypeEnum::TokenTypeUsdc)
            } else if value@ == token_type_name(TokenTypeEnum::TokenTypePoints) {
                Some(TokenTypeEnum::TokenTypePoints)
            } else {
                None::<TokenTypeEnum>
            }),
    {
        let v: String = value.to_owned();
        if v == String::from_str("TOKEN_TYPE_USDC") {
            Some(TokenTypeEnum::TokenTypeUsdc)
        } else if v == String::from_str("TOKEN_TYPE_POINTS") {
            Some(TokenTypeEnum::TokenTypePoints)
        } else {
            None
        }
    }
}

} // verus!
