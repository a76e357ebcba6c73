//! The byte-level decoders: each event and instruction payload format,
//! specified field by field, with the exact conditions under which a
//! payload is accepted.
//!
//! A payload begins with an 8-byte discriminator; the fields follow as
//! little-endian integers, 32-byte account identities (rendered base-58),
//! single-byte token-type tags and length-prefixed UTF-8 strings.  A
//! payload too short for its fields, an unknown token tag or an invalid
//! string is rejected whole.

use vstd::prelude::*;
use crate::pb::{
    BetPlacedEvent, ClaimPayoutInstruction, CreatePoolInstruction, GradeBetInstruction,
    InitializeInstruction, PayoutClaimedEvent, PlaceBetInstruction, PoolClosedEvent,
    PoolCreatedEvent, PoolImageSetEvent, SetImageInstruction,
};
use crate::types::{PoolStatus, TokenType};
use crate::wire::{le_i64, le_u32, le_u64, read_bytes, read_i64_le, read_u32_le, read_u64_le};
use crate::wrappers::{base58_of, base58_string, utf8_decoded, utf8_string};

verus! {

/// The program whose transactions the decoder reads.
pub const PROGRAM_ID: &'static str = "i6PRmGAi4rZrvAJeLCskWCE8gTnYmUeoJaHpsu1XUtK";

pub const BET_PLACED_DISC: u64 = 0x20ce7ee2915858;

pub const PAYOUT_CLAIMED_DISC: u64 = 0x953a3f74706927c8;

pub const POOL_CLOSED_DISC: u64 = 0x77492c2ae71d2e6a;

pub const POOL_CREATED_DISC: u64 = 0x529ddc6858292cca;

pub const POOL_IMAGE_SET_DISC: u64 = 0xa836bc487b67911c;

pub const CLAIM_PAYOUT_DISC: u64 = 0x8592c6e33e84f07f;

pub const CREATE_POOL_DISC: u64 = 0xbc4068cf8ed192e9;

pub const GRADE_BET_DISC: u64 = 0x4058dd1427680ea3;

pub const INITIALIZE_DISC: u64 = 0xed9b980d1f6dafaf;

pub const PLACE_BET_DISC: u64 = 0x217ea63fdc433ede;

pub const SET_IMAGE_DISC: u64 = 0xb5062e4c9d3c355c;

/// The numeric code of a pool status.
pub fn map_enum_pool_status(value: PoolStatus) -> (r: i32)
    ensures
        value == PoolStatus::Pending ==> r == 1,
        value == PoolStatus::Graded ==> r == 2,
        value == PoolStatus::Regraded ==> r == 3,
{
    match value {
        PoolStatus::Pending => 1,
        PoolStatus::Graded => 2,
        PoolStatus::Regraded => 3,
    }
}

/// The numeric code of a token type.
pub fn map_enum_token_type(value: TokenType) -> (r: i32)
    ensures
        value == TokenType::Usdc ==> r == 0,
        value == TokenType::Points ==> r == 1,
{
    match value {
        TokenType::Usdc => 0,
        TokenType::Points => 1,
    }
}

/// The unsigned 64-bit field at byte offset `i`.
pub open spec fn u64_at(p: Seq<u8>, i: int) -> u64 {
    le_u64(p.subrange(i, i + 8)) as u64
}

/// The signed 64-bit field at byte offset `i`.
pub open spec fn i64_at(p: Seq<u8>, i: int) -> i64 {
    le_i64(p.subrange(i, i + 8)) as i64
}

/// The numeric code a token-type tag byte decodes to (only tags 0 and 1
/// are accepted).
pub open spec fn token_code(b: u8) -> i32 {
    if b == 0 {
        0
    } else {
        1
    }
}

/// Where the length-prefixed string starting at `at` ends, or -1 when the
/// payload is too short for its length prefix or its contents.
pub open spec fn str_end(p: Seq<u8>, at: int) -> int {
    if 0 <= at && at + 4 <= p.len() {
        let l = le_u32(p.subrange(at, at + 4));
        if at + 4 + l <= p.len() {
            at + 4 + l
        } else {
            -1
        }
    } else {
        -1
    }
}

/// The raw contents of the length-prefixed string starting at `at`.
pub open spec fn str_bytes(p: Seq<u8>, at: int) -> Seq<u8> {
    p.subrange(at + 4, str_end(p, at))
}

/// Reads the length-prefixed UTF-8 string at `at`, returning it and the
/// offset just past it.
pub fn read_borsh_string(p: &[u8], at: usize) -> (r: Option<(String, usize)>)
    requires
        at <= p@.len(),
    ensures
        r is Some <==> str_end(p@, at as int) >= 0 && utf8_decoded(str_bytes(p@, at as int))
            is Some,
        r matches Some(pair) ==> pair.1 == str_end(p@, at as int) && Some(pair.0@) == utf8_decoded(
            str_bytes(p@, at as int),
        ),
{
    let n = p.len();
    if n - at < 4 {
        return None;
    }
    let l32 = read_u32_le(p, at);
    let l = l32 as usize;
    if l > n - at - 4 {
        return None;
    }
    let raw = read_bytes(p, at + 4, l);
    assert(str_end(p@, at as int) == at + 4 + l);
    assert(raw@ == str_bytes(p@, at as int));
    match utf8_string(raw) {
        Some(s) => Some((s, at + 4 + l)),
        None => None,
    }
}

/// The decoded fields of a bet-placed event payload (discriminator
/// included), when the payload is long enough and its token tag valid.
pub open spec fn bet_placed_fields(tx: Seq<char>, p: Seq<u8>) -> Option<BetPlacedRec> {
    if p.len() >= 81 && (p[72] == 0 || p[72] == 1) {
        Some(
            BetPlacedRec {
                trx_hash: tx,
                bet_id: u64_at(p, 8),
                pool_id: u64_at(p, 16),
                user: base58_of(p.subrange(24, 56)),
                option_index: u64_at(p, 56),
                amount: u64_at(p, 64),
                token_type: token_code(p[72]),
                created_at: i64_at(p, 73),
            },
        )
    } else {
        None
    }
}

/// The field values of a decoded bet-placed record.
pub struct BetPlacedRec {
    pub trx_hash: Seq<char>,
    pub bet_id: u64,
    pub pool_id: u64,
    pub user: Seq<char>,
    pub option_index: u64,
    pub amount: u64,
    pub token_type: i32,
    pub created_at: i64,
}

/// The field values `e` carries.
pub open spec fn bet_placed_rec(e: BetPlacedEvent) -> BetPlacedRec {
    BetPlacedRec {
        trx_hash: e.trx_hash@,
        bet_id: e.bet_id,
        pool_id: e.pool_id,
        user: e.user@,
        option_index: e.option_index,
        amount: e.amount,
        token_type: e.token_type,
        created_at: e.created_at,
    }
}

/// Decodes a bet-placed event payload.
pub fn decode_bet_placed(tx: &String, p: &[u8]) -> (r: Option<BetPlacedEvent>)
    ensures
        r is Some <==> bet_placed_fields(tx@, p@) is Some,
        r matches Some(e) ==> Some(bet_placed_rec(e)) == bet_placed_fields(tx@, p@),
{
    if p.len() < 81 {
        return None;
    }
    let tag = p[72];
    if tag > 1 {
        return None;
    }
    let token_type = if tag == 0 {
        map_enum_token_type(TokenType::Usdc)
    } else {
        map_enum_token_type(TokenType::Points)
    };
    let user_bytes = read_bytes(p, 24, 32);
    Some(
        BetPlacedEvent {
            trx_hash: tx.clone(),
            bet_id: read_u64_le(p, 8),
            pool_id: read_u64_le(p, 16),
            user: base58_string(&user_bytes),
            option_index: read_u64_le(p, 56),
            amount: read_u64_le(p, 64),
            token_type,
            created_at: read_i64_le(p, 73),
        },
    )
}

/// The decoded fields of a payout-claimed event payload.
pub open spec fn payout_claimed_fields(tx: Seq<char>, p: Seq<u8>) -> Option<PayoutClaimedRec> {
    if p.len() >= 65 && (p[64] == 0 || p[64] == 1) {
        Some(
            PayoutClaimedRec {
                trx_hash: tx,
                bet_id: u64_at(p, 8),
                pool_id: u64_at(p, 16),
                user: base58_of(p.subrange(24, 56)),
                amount: u64_at(p, 56),
                token_type: token_code(p[64]),
            },
        )
    } else {
        None
    }
}

/// The field values of a decoded payout-claimed record.
pub struct PayoutClaimedRec {
    pub trx_hash: Seq<char>,
    pub bet_id: u64,
    pub pool_id: u64,
    pub user: Seq<char>,
    pub amount: u64,
    pub token_type: i32,
}

/// The field values `e` carries.
pub open spec fn payout_claimed_rec(e: PayoutClaimedEvent) -> PayoutClaimedRec {
    PayoutClaimedRec {
        trx_hash: e.trx_hash@,
        bet_id: e.bet_id,
        pool_id: e.pool_id,
        user: e.user@,
        amount: e.amount,
        token_type: e.token_type,
    }
}

/// Decodes a payout-claimed event payload.
pub fn decode_payout_claimed(tx: &String, p: &[u8]) -> (r: Option<PayoutClaimedEvent>)
    ensures
        r is Some <==> payout_claimed_fields(tx@, p@) is Some,
        r matches Some(e) ==> Some(payout_claimed_rec(e)) == payout_claimed_fields(tx@, p@),
{
    if p.len() < 65 {
        return None;
    }
    let tag = p[64];
    if tag > 1 {
        return None;
    }
    let token_type = if tag == 0 {
        map_enum_token_type(TokenType::Usdc)
    } else {
        map_enum_token_type(TokenType::Points)
    };
    let user_bytes = read_bytes(p, 24, 32);
    Some(
        PayoutClaimedEvent {
            trx_hash: tx.clone(),
            bet_id: read_u64_le(p, 8),
            pool_id: read_u64_le(p, 16),
            user: base58_string(&user_bytes),
            amount: read_u64_le(p, 56),
            token_type,
        },
    )
}

/// The decoded fields of a pool-closed event payload.
pub open spec fn pool_closed_fields(tx: Seq<char>, p: Seq<u8>) -> Option<PoolClosedRec> {
    if p.len() >= 32 {
        Some(
            PoolClosedRec {
                trx_hash: tx,
                pool_id: u64_at(p, 8),
                selected_option: u64_at(p, 16),
                decision_time: i64_at(p, 24),
            },
        )
    } else {
        None
    }
}

/// The field values of a decoded pool-closed record.
pub struct PoolClosedRec {
    pub trx_hash: Seq<char>,
    pub pool_id: u64,
    pub selected_option: u64,
    pub decision_time: i64,
}

/// The field values `e` carries.
pub open spec fn pool_closed_rec(e: PoolClosedEvent) -> PoolClosedRec {
    PoolClosedRec {
        trx_hash: e.trx_hash@,
        pool_id: e.pool_id,
        selected_option: e.selected_option,
        decision_time: e.decision_time,
    }
}

/// Decodes a pool-closed event payload.
pub fn decode_pool_closed(tx: &String, p: &[u8]) -> (r: Option<PoolClosedEvent>)
    ensures
        r is Some <==> pool_closed_fields(tx@, p@) is Some,
        r matches Some(e) ==> Some(pool_closed_rec(e)) == pool_closed_fields(tx@, p@),
{
    if p.len() < 32 {
        return None;
    }
    Some(
        PoolClosedEvent {
            trx_hash: tx.clone(),
            pool_id: read_u64_le(p, 8),
            selected_option: read_u64_le(p, 16),
            decision_time: read_i64_le(p, 24),
        },
    )
}

/// The decoded fields of a pool-created event payload: the pool id, then
/// five strings and two timestamps in declaration order.
pub open spec fn pool_created_fields(tx: Seq<char>, p: Seq<u8>) -> Option<PoolCreatedRec> {
    if p.len() < 16 {
        None
    } else {
        let e1 = str_end(p, 16);
        let e2 = str_end(p, e1);
        let e3 = str_end(p, e2);
        let e4 = str_end(p, e3 + 8);
        let e5 = str_end(p, e4);
        if e1 >= 0 && e2 >= 0 && e3 >= 0 && e3 + 8 <= p.len() && e4 >= 0 && e5 >= 0 && e5 + 8
            <= p.len() && utf8_decoded(str_bytes(p, 16)) is Some && utf8_decoded(
            str_bytes(p, e1),
        ) is Some && utf8_decoded(str_bytes(p, e2)) is Some && utf8_decoded(
            str_bytes(p, e3 + 8),
        ) is Some && utf8_decoded(str_bytes(p, e4)) is Some {
            Some(
                PoolCreatedRec {
                    trx_hash: tx,
                    pool_id: u64_at(p, 8),
                    question: utf8_decoded(str_bytes(p, 16))->Some_0,
                    options: seq![
                        utf8_decoded(str_bytes(p, e1))->Some_0,
                        utf8_decoded(str_bytes(p, e2))->Some_0,
                    ],
                    bets_close_at: i64_at(p, e3),
                    original_truth_social_post_id: utf8_decoded(str_bytes(p, e3 + 8))->Some_0,
                    image_url: utf8_decoded(str_bytes(p, e4))->Some_0,
                    created_at: i64_at(p, e5),
                },
            )
        } else {
            None
        }
    }
}

/// The field values of a decoded pool-created record.
pub struct PoolCreatedRec {
    pub trx_hash: Seq<char>,
    pub pool_id: u64,
    pub question: Seq<char>,
    pub options: Seq<Seq<char>>,
    pub bets_close_at: i64,
    pub original_truth_social_post_id: Seq<char>,
    pub image_url: Seq<char>,
    pub created_at: i64,
}

/// The field values `e` carries.
pub open spec fn pool_created_rec(e: PoolCreatedEvent) -> PoolCreatedRec {
    PoolCreatedRec {
        trx_hash: e.trx_hash@,
        pool_id: e.pool_id,
        question: e.question@,
        options: e.options.deep_view(),
        bets_close_at: e.bets_close_at,
        original_truth_social_post_id: e.original_truth_social_post_id@,
        image_url: e.image_url@,
        created_at: e.created_at,
    }
}

/// Decodes a pool-created event payload.
pub fn decode_pool_created(tx: &String, p: &[u8]) -> (r: Option<PoolCreatedEvent>)
    ensures
        r is Some <==> pool_created_fields(tx@, p@) is Some,
        r matches Some(e) ==> Some(pool_created_rec(e)) == pool_created_fields(tx@, p@),
{
    if p.len() < 16 {
        return None;
    }
    let pool_id = read_u64_le(p, 8);
    let (question, e1) = match read_borsh_string(p, 16) {
        Some(pair) => pair,
        None => {
            return None;
        },
    };
    let (option_a, e2) = match read_borsh_string(p, e1) {
        Some(pair) => pair,
        None => {
            return None;
        },
    };
    let (option_b, e3) = match read_borsh_string(p, e2) {
        Some(pair) => pair,
        None => {
            return None;
        },
    };
    if p.len() - e3 < 8 {
        return None;
    }
    let bets_close_at = read_i64_le(p, e3);
    let (post_id, e4) = match read_borsh_string(p, e3 + 8) {
        Some(pair) => pair,
        None => {
            return None;
        },
    };
    let (image_url, e5) = match read_borsh_string(p, e4) {
        Some(pair) => pair,
        None => {
            return None;
        },
    };
    if p.len() - e5 < 8 {
        return None;
    }
    let created_at = read_i64_le(p, e5);
    let mut options: Vec<String> = Vec::new();
    options.push(option_a);
    options.push(option_b);
    let e = PoolCreatedEvent {
        trx_hash: tx.clone(),
        pool_id,
        question,
        options,
        bets_close_at,
        original_truth_social_post_id: post_id,
        image_url,
        created_at,
    };
    assert(e.options.deep_view() =~= pool_created_fields(tx@, p@)->Some_0.options);
    Some(e)
}

/// The decoded fields of a pool-image-set event payload.
pub open spec fn pool_image_set_fields(tx: Seq<char>, p: Seq<u8>) -> Option<PoolImageSetRec> {
    if p.len() >= 16 && str_end(p, 16) >= 0 && utf8_decoded(str_bytes(p, 16)) is Some {
        Some(
            PoolImageSetRec {
                trx_hash: tx,
                pool_id: u64_at(p, 8),
                image_url: utf8_decoded(str_bytes(p, 16))->Some_0,
            },
        )
    } else {
        None
    }
}

/// The field values of a decoded pool-image-set record.
pub struct PoolImageSetRec {
    pub trx_hash: Seq<char>,
    pub pool_id: u64,
    pub image_url: Seq<char>,
}

/// The field values `e` carries.
pub open spec fn pool_image_set_rec(e: PoolImageSetEvent) -> PoolImageSetRec {
    PoolImageSetRec { trx_hash: e.trx_hash@, pool_id: e.pool_id, image_url: e.image_url@ }
}

/// Decodes a pool-image-set event payload.
pub fn decode_pool_image_set(tx: &String, p: &[u8]) -> (r: Option<PoolImageSetEvent>)
    ensures
        r is Some <==> pool_image_set_fields(tx@, p@) is Some,
        r matches Some(e) ==> Some(pool_image_set_rec(e)) == pool_image_set_fields(tx@, p@),
{
    if p.len() < 16 {
        return None;
    }
    let pool_id = read_u64_le(p, 8);
    match read_borsh_string(p, 16) {
        Some((image_url, _end)) => Some(
            PoolImageSetEvent { trx_hash: tx.clone(), pool_id, image_url },
        ),
        None => None,
    }
}

/// Copies account `i` out of the resolved account list.
fn account_at(accounts: &Vec<String>, i: usize) -> (r: String)
    requires
        i < accounts@.len(),
    ensures
        r@ == accounts.deep_view()[i as int],
{
    let r = accounts[i].clone();
    assert(accounts.deep_view()[i as int] == accounts@[i as int]@);
    r
}

/// The decoded fields of a claim-payout instruction: no arguments, six
/// positionally resolved accounts.
pub open spec fn claim_payout_ifields(tx: Seq<char>, accounts: Seq<Seq<char>>) -> Option<
    ClaimPayoutIRec,
> {
    if accounts.len() >= 6 {
        Some(
            ClaimPayoutIRec {
                trx_hash: tx,
                acct_betting_pools: accounts[0],
                acct_pool: accounts[1],
                acct_bet: accounts[2],
                acct_bettor: accounts[3],
                acct_bettor_token_account: accounts[4],
                acct_program_token_account: accounts[5],
            },
        )
    } else {
        None
    }
}

/// The field values of a decoded claim-payout call.
pub struct ClaimPayoutIRec {
    pub trx_hash: Seq<char>,
    pub acct_betting_pools: Seq<char>,
    pub acct_pool: Seq<char>,
    pub acct_bet: Seq<char>,
    pub acct_bettor: Seq<char>,
    pub acct_bettor_token_account: Seq<char>,
    pub acct_program_token_account: Seq<char>,
}

/// The field values `e` carries.
pub open spec fn claim_payout_irec(e: ClaimPayoutInstruction) -> ClaimPayoutIRec {
    ClaimPayoutIRec {
        trx_hash: e.trx_hash@,
        acct_betting_pools: e.acct_betting_pools@,
        acct_pool: e.acct_pool@,
        acct_bet: e.acct_bet@,
        acct_bettor: e.acct_bettor@,
        acct_bettor_token_account: e.acct_bettor_token_account@,
        acct_program_token_account: e.acct_program_token_account@,
    }
}

/// Decodes a claim-payout instruction.
pub fn decode_claim_payout(tx: &String, accounts: &Vec<String>) -> (r: Option<
    ClaimPayoutInstruction,
>)
    ensures
        r is Some <==> claim_payout_ifields(tx@, accounts.deep_view()) is Some,
        r matches Some(e) ==> Some(claim_payout_irec(e)) == claim_payout_ifields(
            tx@,
            accounts.deep_view(),
        ),
{
    if accounts.len() < 6 {
        return None;
    }
    Some(
        ClaimPayoutInstruction {
            trx_hash: tx.clone(),
            acct_betting_pools: account_at(accounts, 0),
            acct_pool: account_at(accounts, 1),
            acct_bet: account_at(accounts, 2),
            acct_bettor: account_at(accounts, 3),
            acct_bettor_token_account: account_at(accounts, 4),
            acct_program_token_account: account_at(accounts, 5),
        },
    )
}

/// The decoded fields of a create-pool instruction: five strings and a
/// timestamp, then three positionally resolved accounts.
pub open spec fn create_pool_ifields(tx: Seq<char>, p: Seq<u8>, accounts: Seq<Seq<char>>) -> Option<
    CreatePoolIRec,
> {
    let e1 = str_end(p, 8);
    let e2 = str_end(p, e1);
    let e3 = str_end(p, e2);
    let e4 = str_end(p, e3 + 8);
    let e5 = str_end(p, e4);
    if e1 >= 0 && e2 >= 0 && e3 >= 0 && e3 + 8 <= p.len() && e4 >= 0 && e5 >= 0 && utf8_decoded(
        str_bytes(p, 8),
    ) is Some && utf8_decoded(str_bytes(p, e1)) is Some && utf8_decoded(str_bytes(p, e2)) is Some
        && utf8_decoded(str_bytes(p, e3 + 8)) is Some && utf8_decoded(str_bytes(p, e4)) is Some
        && accounts.len() >= 3 {
        Some(
            CreatePoolIRec {
                trx_hash: tx,
                question: utf8_decoded(str_bytes(p, 8))->Some_0,
                options: seq![
                    utf8_decoded(str_bytes(p, e1))->Some_0,
                    utf8_decoded(str_bytes(p, e2))->Some_0,
                ],
                bets_close_at: i64_at(p, e3),
                original_truth_social_post_id: utf8_decoded(str_bytes(p, e3 + 8))->Some_0,
                image_url: utf8_decoded(str_bytes(p, e4))->Some_0,
                acct_betting_pools: accounts[0],
                acct_pool: accounts[1],
                acct_authority: accounts[2],
            },
        )
    } else {
        None
    }
}

/// The field values of a decoded create-pool call.
pub struct CreatePoolIRec {
    pub trx_hash: Seq<char>,
    pub question: Seq<char>,
    pub options: Seq<Seq<char>>,
    pub bets_close_at: i64,
    pub original_truth_social_post_id: Seq<char>,
    pub image_url: Seq<char>,
    pub acct_betting_pools: Seq<char>,
    pub acct_pool: Seq<char>,
    pub acct_authority: Seq<char>,
}

/// The field values `e` carries.
pub open spec fn create_pool_irec(e: CreatePoolInstruction) -> CreatePoolIRec {
    CreatePoolIRec {
        trx_hash: e.trx_hash@,
        question: e.question@,
        options: e.options.deep_view(),
        bets_close_at: e.bets_close_at,
        original_truth_social_post_id: e.original_truth_social_post_id@,
        image_url: e.image_url@,
        acct_betting_pools: e.acct_betting_pools@,
        acct_pool: e.acct_pool@,
        acct_authority: e.acct_authority@,
    }
}

/// Decodes a create-pool instruction.
pub fn decode_create_pool(tx: &String, p: &[u8], accounts: &Vec<String>) -> (r: Option<
    CreatePoolInstruction,
>)
    requires
        p@.len() >= 8,
    ensures
        r is Some <==> create_pool_ifields(tx@, p@, accounts.deep_view()) is Some,
        r matches Some(e) ==> Some(create_pool_irec(e)) == create_pool_ifields(
            tx@,
            p@,
            accounts.deep_view(),
        ),
{
    let (question, e1) = match read_borsh_string(p, 8) {
        Some(pair) => pair,
        None => {
            return None;
        },
    };
    let (option_a, e2) = match read_borsh_string(p, e1) {
        Some(pair) => pair,
        None => {
            return None;
        },
    };
    let (option_b, e3) = match read_borsh_string(p, e2) {
        Some(pair) => pair,
        None => {
            return None;
        },
    };
    if p.len() - e3 < 8 {
        return None;
    }
    let bets_close_at = read_i64_le(p, e3);
    let (post_id, e4) = match read_borsh_string(p, e3 + 8) {
        Some(pair) => pair,
        None => {
            return None;
        },
    };
    let (image_url, _e5) = match read_borsh_string(p, e4) {
        Some(pair) => pair,
        None => {
            return None;
        },
    };
    if accounts.len() < 3 {
        return None;
    }
    let mut options: Vec<String> = Vec::new();
    options.push(option_a);
    options.push(option_b);
    let e = CreatePoolInstruction {
        trx_hash: tx.clone(),
        question,
        options,
        bets_close_at,
        original_truth_social_post_id: post_id,
        image_url,
        acct_betting_pools: account_at(accounts, 0),
        acct_pool: account_at(accounts, 1),
        acct_authority: account_at(accounts, 2),
    };
    assert(e.options.deep_view() =~= create_pool_ifields(
        tx@,
        p@,
        accounts.deep_view(),
    )->Some_0.options);
    Some(e)
}

/// The decoded fields of a grade-bet instruction.
pub open spec fn grade_bet_ifields(tx: Seq<char>, p: Seq<u8>, accounts: Seq<Seq<char>>) -> Option<
    GradeBetIRec,
> {
    if p.len() >= 16 && accounts.len() >= 3 {
        Some(
            GradeBetIRec {
                trx_hash: tx,
                response_option: u64_at(p, 8),
                acct_betting_pools: accounts[0],
                acct_pool: accounts[1],
                acct_authority: accounts[2],
            },
        )
    } else {
        None
    }
}

/// The field values of a decoded grade-bet call.
pub struct GradeBetIRec {
    pub trx_hash: Seq<char>,
    pub response_option: u64,
    pub acct_betting_pools: Seq<char>,
    pub acct_pool: Seq<char>,
    pub acct_authority: Seq<char>,
}

/// The field values `e` carries.
pub open spec fn grade_bet_irec(e: GradeBetInstruction) -> GradeBetIRec {
    GradeBetIRec {
        trx_hash: e.trx_hash@,
        response_option: e.response_option,
        acct_betting_pools: e.acct_betting_pools@,
        acct_pool: e.acct_pool@,
        acct_authority: e.acct_authority@,
    }
}

/// Decodes a grade-bet instruction.
pub fn decode_grade_bet(tx: &String, p: &[u8], accounts: &Vec<String>) -> (r: Option<
    GradeBetInstruction,
>)
    ensures
        r is Some <==> grade_bet_ifields(tx@, p@, accounts.deep_view()) is Some,
        r matches Some(e) ==> Some(grade_bet_irec(e)) == grade_bet_ifields(
            tx@,
            p@,
            accounts.deep_view(),
        ),
{
    if p.len() < 16 || accounts.len() < 3 {
        return None;
    }
    Some(
        GradeBetInstruction {
            trx_hash: tx.clone(),
            response_option: read_u64_le(p, 8),
            acct_betting_pools: account_at(accounts, 0),
            acct_pool: account_at(accounts, 1),
            acct_authority: account_at(accounts, 2),
        },
    )
}

/// The decoded fields of an initialize instruction: the two mint
/// identities, rendered base-58, and two positionally resolved accounts.
pub open spec fn initialize_ifields(tx: Seq<char>, p: Seq<u8>, accounts: Seq<Seq<char>>) -> Option<
    InitializeIRec,
> {
    if p.len() >= 72 && accounts.len() >= 2 {
        Some(
            InitializeIRec {
                trx_hash: tx,
                usdc_mint: base58_of(p.subrange(8, 40)),
                freedom_mint: base58_of(p.subrange(40, 72)),
                acct_betting_pools: accounts[0],
                acct_authority: accounts[1],
            },
        )
    } else {
        None
    }
}

/// The field values of a decoded initialize call.
pub struct InitializeIRec {
    pub trx_hash: Seq<char>,
    pub usdc_mint: Seq<char>,
    pub freedom_mint: Seq<char>,
    pub acct_betting_pools: Seq<char>,
    pub acct_authority: Seq<char>,
}

/// The field values `e` carries.
pub open spec fn initialize_irec(e: InitializeInstruction) -> InitializeIRec {
    InitializeIRec {
        trx_hash: e.trx_hash@,
        usdc_mint: e.usdc_mint@,
        freedom_mint: e.freedom_mint@,
        acct_betting_pools: e.acct_betting_pools@,
        acct_authority: e.acct_authority@,
    }
}

/// Decodes an initialize instruction.
pub fn decode_initialize(tx: &String, p: &[u8], accounts: &Vec<String>) -> (r: Option<
    InitializeInstruction,
>)
    ensures
        r is Some <==> initialize_ifields(tx@, p@, accounts.deep_view()) is Some,
        r matches Some(e) ==> Some(initialize_irec(e)) == initialize_ifields(
            tx@,
            p@,
            accounts.deep_view(),
        ),
{
    if p.len() < 72 || accounts.len() < 2 {
        return None;
    }
    let usdc_bytes = read_bytes(p, 8, 32);
    let freedom_bytes = read_bytes(p, 40, 32);
    Some(
        InitializeInstruction {
            trx_hash: tx.clone(),
            usdc_mint: base58_string(&usdc_bytes),
            freedom_mint: base58_string(&freedom_bytes),
            acct_betting_pools: account_at(accounts, 0),
            acct_authority: account_at(accounts, 1),
        },
    )
}

/// The decoded fields of a place-bet instruction.
pub open spec fn place_bet_ifields(tx: Seq<char>, p: Seq<u8>, accounts: Seq<Seq<char>>) -> Option<
    PlaceBetIRec,
> {
    if p.len() >= 25 && (p[24] == 0 || p[24] == 1) && accounts.len() >= 6 {
        Some(
            PlaceBetIRec {
                trx_hash: tx,
                option_index: u64_at(p, 8),
                amount: u64_at(p, 16),
                token_type: token_code(p[24]),
                acct_betting_pools: accounts[0],
                acct_pool: accounts[1],
                acct_bet: accounts[2],
                acct_bettor: accounts[3],
                acct_bettor_token_account: accounts[4],
                acct_program_token_account: accounts[5],
            },
        )
    } else {
        None
    }
}

/// The field values of a decoded place-bet call.
pub struct PlaceBetIRec {
    pub trx_hash: Seq<char>,
    pub option_index: u64,
    pub amount: u64,
    pub token_type: i32,
    pub acct_betting_pools: Seq<char>,
    pub acct_pool: Seq<char>,
    pub acct_bet: Seq<char>,
    pub acct_bettor: Seq<char>,
    pub acct_bettor_token_account: Seq<char>,
    pub acct_program_token_account: Seq<char>,
}

/// The field values `e` carries.
pub open spec fn place_bet_irec(e: PlaceBetInstruction) -> PlaceBetIRec {
    PlaceBetIRec {
        trx_hash: e.trx_hash@,
        option_index: e.option_index,
        amount: e.amount,
        token_type: e.token_type,
        acct_betting_pools: e.acct_betting_pools@,
        acct_pool: e.acct_pool@,
        acct_bet: e.acct_bet@,
        acct_bettor: e.acct_bettor@,
        acct_bettor_token_account: e.acct_bettor_token_account@,
        acct_program_token_account: e.acct_program_token_account@,
    }
}

/// Decodes a place-bet instruction.
pub fn decode_place_bet(tx: &String, p: &[u8], accounts: &Vec<String>) -> (r: Option<
    PlaceBetInstruction,
>)
    ensures
        r is Some <==> place_bet_ifields(tx@, p@, accounts.deep_view()) is Some,
        r matches Some(e) ==> Some(place_bet_irec(e)) == place_bet_ifields(
            tx@,
            p@,
            accounts.deep_view(),
        ),
{
    if p.len() < 25 || accounts.len() < 6 {
        return None;
    }
    let tag = p[24];
    if tag > 1 {
        return None;
    }
    let token_type = if tag == 0 {
        map_enum_token_type(TokenType::Usdc)
    } else {
        map_enum_token_type(TokenType::Points)
    };
    Some(
        PlaceBetInstruction {
            trx_hash: tx.clone(),
            option_index: read_u64_le(p, 8),
            amount: read_u64_le(p, 16),
            token_type,
            acct_betting_pools: account_at(accounts, 0),
            acct_pool: account_at(accounts, 1),
            acct_bet: account_at(accounts, 2),
            acct_bettor: account_at(accounts, 3),
            acct_bettor_token_account: account_at(accounts, 4),
            acct_program_token_account: account_at(accounts, 5),
        },
    )
}

/// The decoded fields of a set-image instruction.
pub open spec fn set_image_ifields(tx: Seq<char>, p: Seq<u8>, accounts: Seq<Seq<char>>) -> Option<
    SetImageIRec,
> {
    if str_end(p, 8) >= 0 && utf8_decoded(str_bytes(p, 8)) is Some && accounts.len() >= 3 {
        Some(
            SetImageIRec {
                trx_hash: tx,
                image_url: utf8_decoded(str_bytes(p, 8))->Some_0,
                acct_pool: accounts[0],
                acct_betting_pools: accounts[1],
                acct_authority: accounts[2],
            },
        )
    } else {
        None
    }
}

/// The field values of a decoded set-image call.
pub struct SetImageIRec {
    pub trx_hash: Seq<char>,
    pub image_url: Seq<char>,
    pub acct_pool: Seq<char>,
    pub acct_betting_pools: Seq<char>,
    pub acct_authority: Seq<char>,
}

/// The field values `e` carries.
pub open spec fn set_image_irec(e: SetImageInstruction) -> SetImageIRec {
    SetImageIRec {
        trx_hash: e.trx_hash@,
        image_url: e.image_url@,
        acct_pool: e.acct_pool@,
        acct_betting_pools: e.acct_betting_pools@,
        acct_authority: e.acct_authority@,
    }
}

/// Decodes a set-image instruction.
pub fn decode_set_image(tx: &String, p: &[u8], accounts: &Vec<String>) -> (r: Option<
    SetImageInstruction,
>)
    requires
        p@.len() >= 8,
    ensures
        r is Some <==> set_image_ifields(tx@, p@, accounts.deep_view()) is Some,
        r matches Some(e) ==> Some(set_image_irec(e)) == set_image_ifields(
            tx@,
            p@,
            accounts.deep_view(),
        ),
{
    let (image_url, _end) = match read_borsh_string(p, 8) {
        Some(pair) => pair,
        None => {
            return None;
        },
    };
    if accounts.len() < 3 {
        return None;
    }
    Some(
        SetImageInstruction {
            trx_hash: tx.clone(),
            image_url,
            acct_pool: account_at(accounts, 0),
            acct_betting_pools: account_at(accounts, 1),
            acct_authority: account_at(accounts, 2),
        },
    )
}

} // verus!
