use base64::Engine;
use base64::prelude::BASE64_STANDARD;
use betting_pools::decode::{
    decode_bet_placed, decode_pool_created, map_enum_pool_status, map_enum_token_type,
    BET_PLACED_DISC, GRADE_BET_DISC, PLACE_BET_DISC, POOL_CLOSED_DISC, PROGRAM_ID,
};
use betting_pools::logscan::check_logs;
use betting_pools::pb::TokenTypeEnum;
use betting_pools::stream::{map_program_data, InstructionRecord, TransactionRecord};
use betting_pools::types::{PoolStatus, TokenType};
use betting_pools::wire::{read_bytes, read_i64_le, read_u32_le, read_u64_le};

fn borsh_str(s: &str) -> Vec<u8> {
    let mut out = (s.len() as u32).to_le_bytes().to_vec();
    out.extend_from_slice(s.as_bytes());
    out
}

fn bet_placed_payload(user: &[u8; 32]) -> Vec<u8> {
    let mut p = BET_PLACED_DISC.to_le_bytes().to_vec();
    p.extend_from_slice(&7u64.to_le_bytes()); // bet_id
    p.extend_from_slice(&3u64.to_le_bytes()); // pool_id
    p.extend_from_slice(user);
    p.extend_from_slice(&1u64.to_le_bytes()); // option_index
    p.extend_from_slice(&250u64.to_le_bytes()); // amount
    p.push(1); // token type tag: points
    p.extend_from_slice(&(-42i64).to_le_bytes()); // created_at
    p
}

#[test]
fn wire_readers_decode_little_endian_fields() {
    let bytes: Vec<u8> = vec![0xEF, 0xCD, 0xAB, 0x00, 0x01, 0, 0, 0, 0, 0, 0, 0];
    assert_eq!(read_u32_le(&bytes, 0), 0x00ABCDEF);
    assert_eq!(read_u64_le(&bytes, 0), 0x1_00ABCDEFu64);
    assert_eq!(read_i64_le(&(-1i64).to_le_bytes().to_vec(), 0), -1);
    assert_eq!(read_i64_le(&i64::MIN.to_le_bytes().to_vec(), 0), i64::MIN);
    assert_eq!(read_i64_le(&7i64.to_le_bytes().to_vec(), 0), 7);
    assert_eq!(read_bytes(&bytes, 1, 3), vec![0xCD, 0xAB, 0x00]);
}

#[test]
fn bet_placed_event_decodes_field_by_field() {
    let user = [7u8; 32];
    let p = bet_placed_payload(&user);
    let e = decode_bet_placed(&"sig-1".to_string(), &p).unwrap();
    assert_eq!(e.trx_hash, "sig-1");
    assert_eq!(e.bet_id, 7);
    assert_eq!(e.pool_id, 3);
    assert_eq!(e.user, bs58::encode(&user).into_string());
    assert_eq!(e.option_index, 1);
    assert_eq!(e.amount, 250);
    assert_eq!(e.token_type, 1);
    assert_eq!(e.created_at, -42);
}

#[test]
fn bet_placed_event_rejects_short_or_bad_tag() {
    let user = [7u8; 32];
    let mut p = bet_placed_payload(&user);
    p[72] = 9; // unknown token tag
    assert!(decode_bet_placed(&"sig".to_string(), &p).is_none());
    let short = bet_placed_payload(&user)[..80].to_vec();
    assert!(decode_bet_placed(&"sig".to_string(), &short).is_none());
}

#[test]
fn pool_created_event_decodes_strings_and_timestamps() {
    let mut p = 0x529ddc6858292ccau64.to_le_bytes().to_vec();
    p.extend_from_slice(&9u64.to_le_bytes());
    p.extend_from_slice(&borsh_str("Un caf\u{e9} pour tout le monde?"));
    p.extend_from_slice(&borsh_str("Oui"));
    p.extend_from_slice(&borsh_str("Non"));
    p.extend_from_slice(&1_234i64.to_le_bytes());
    p.extend_from_slice(&borsh_str("post-9"));
    p.extend_from_slice(&borsh_str("img://nine"));
    p.extend_from_slice(&5_678i64.to_le_bytes());
    let e = decode_pool_created(&"sig-2".to_string(), &p).unwrap();
    assert_eq!(e.pool_id, 9);
    assert_eq!(e.question, "Un caf\u{e9} pour tout le monde?");
    assert_eq!(e.options, vec!["Oui".to_string(), "Non".to_string()]);
    assert_eq!(e.bets_close_at, 1_234);
    assert_eq!(e.original_truth_social_post_id, "post-9");
    assert_eq!(e.image_url, "img://nine");
    assert_eq!(e.created_at, 5_678);
}

#[test]
fn pool_created_event_rejects_invalid_utf8() {
    let mut p = 0x529ddc6858292ccau64.to_le_bytes().to_vec();
    p.extend_from_slice(&9u64.to_le_bytes());
    p.extend_from_slice(&3u32.to_le_bytes());
    p.extend_from_slice(&[0xFF, 0xFE, 0xFD]); // not UTF-8
    assert!(decode_pool_created(&"sig".to_string(), &p).is_none());
}

#[test]
fn check_logs_accepts_nested_invocations() {
    let inner = "11111111111111111111111111111111";
    let logs = vec![
        format!("Program {PROGRAM_ID} invoke [1]"),
        "Program log: Instruction: PlaceBet".to_string(),
        format!("Program {inner} invoke [2]"),
        format!("Program {inner} success"),
        "Program data: aGVsbG8=".to_string(),
        format!("Program {PROGRAM_ID} success"),
    ];
    assert!(check_logs(&logs));
}

#[test]
fn check_logs_rejects_lines_outside_any_frame() {
    assert!(!check_logs(&vec!["Program log: stray".to_string()]));
    assert!(!check_logs(&vec![format!("Program {PROGRAM_ID} success")]));
    assert!(check_logs(&Vec::new()));
}

#[test]
fn map_program_data_extracts_events_and_instructions() {
    let user = [7u8; 32];
    let payload = bet_placed_payload(&user);
    let mut closed = POOL_CLOSED_DISC.to_le_bytes().to_vec();
    closed.extend_from_slice(&3u64.to_le_bytes());
    closed.extend_from_slice(&0u64.to_le_bytes());
    closed.extend_from_slice(&900i64.to_le_bytes());
    let logs = vec![
        format!("Program {PROGRAM_ID} invoke [1]"),
        format!("Program data: {}", BASE64_STANDARD.encode(&payload)),
        format!("Program data: {}", BASE64_STANDARD.encode(&closed)),
        format!("Program {PROGRAM_ID} success"),
    ];
    let mut instr_data = PLACE_BET_DISC.to_le_bytes().to_vec();
    instr_data.extend_from_slice(&1u64.to_le_bytes());
    instr_data.extend_from_slice(&250u64.to_le_bytes());
    instr_data.push(0);
    let accounts: Vec<String> = (0..6).map(|i| format!("acct-{i}")).collect();
    let tx = TransactionRecord {
        id: "sig-3".to_string(),
        log_messages: logs,
        instructions: vec![InstructionRecord {
            program_id: PROGRAM_ID.to_string(),
            data: instr_data,
            accounts: accounts.clone(),
        }],
    };
    let data = map_program_data(&vec![tx]);
    assert_eq!(data.bet_placed_event_list.len(), 1);
    let e = &data.bet_placed_event_list[0];
    assert_eq!(e.trx_hash, "sig-3");
    assert_eq!(e.bet_id, 7);
    assert_eq!(e.user, bs58::encode(&user).into_string());
    assert_eq!(data.pool_closed_event_list.len(), 1);
    assert_eq!(data.pool_closed_event_list[0].decision_time, 900);
    assert_eq!(data.place_bet_instruction_list.len(), 1);
    let i = &data.place_bet_instruction_list[0];
    assert_eq!(i.option_index, 1);
    assert_eq!(i.amount, 250);
    assert_eq!(i.token_type, 0);
    assert_eq!(i.acct_bettor, "acct-3");
    assert_eq!(data.payout_claimed_event_list.len(), 0);
    assert_eq!(data.claim_payout_instruction_list.len(), 0);
}

#[test]
fn map_program_data_skips_foreign_programs_and_bad_logs() {
    let other = "11111111111111111111111111111111";
    let user = [9u8; 32];
    let payload = bet_placed_payload(&user);
    // the event is emitted inside another program's context
    let logs = vec![
        format!("Program {other} invoke [1]"),
        format!("Program data: {}", BASE64_STANDARD.encode(&payload)),
        format!("Program {other} success"),
    ];
    let mut grade_data = GRADE_BET_DISC.to_le_bytes().to_vec();
    grade_data.extend_from_slice(&2u64.to_le_bytes());
    let tx = TransactionRecord {
        id: "sig-4".to_string(),
        log_messages: logs,
        instructions: vec![
            InstructionRecord {
                program_id: other.to_string(),
                data: grade_data.clone(),
                accounts: vec!["a".to_string(), "b".to_string(), "c".to_string()],
            },
            InstructionRecord {
                program_id: PROGRAM_ID.to_string(),
                data: grade_data,
                accounts: vec!["a".to_string(), "b".to_string(), "c".to_string()],
            },
        ],
    };
    let data = map_program_data(&vec![tx]);
    assert_eq!(data.bet_placed_event_list.len(), 0);
    assert_eq!(data.grade_bet_instruction_list.len(), 1);
    assert_eq!(data.grade_bet_instruction_list[0].response_option, 2);
    // a block whose logs break the frame discipline yields no events at all
    let bad = TransactionRecord {
        id: "sig-5".to_string(),
        log_messages: vec!["Program log: stray".to_string()],
        instructions: Vec::new(),
    };
    let data = map_program_data(&vec![bad]);
    assert_eq!(data.bet_placed_event_list.len(), 0);
}

#[test]
fn instruction_accounts_resolve_positionally() {
    let tx = "sig-6".to_string();
    let accounts: Vec<String> = (0..6).map(|i| format!("k{i}")).collect();
    let claim = betting_pools::decode::decode_claim_payout(&tx, &accounts).unwrap();
    assert_eq!(claim.acct_betting_pools, "k0");
    assert_eq!(claim.acct_pool, "k1");
    assert_eq!(claim.acct_bet, "k2");
    assert_eq!(claim.acct_bettor, "k3");
    assert_eq!(claim.acct_bettor_token_account, "k4");
    assert_eq!(claim.acct_program_token_account, "k5");
    // too few accounts: the record is dropped, not mis-filled
    assert!(betting_pools::decode::decode_claim_payout(&tx, &accounts[..5].to_vec()).is_none());

    let mut init_data = betting_pools::decode::INITIALIZE_DISC.to_le_bytes().to_vec();
    let usdc = [3u8; 32];
    let freedom = [4u8; 32];
    init_data.extend_from_slice(&usdc);
    init_data.extend_from_slice(&freedom);
    let init =
        betting_pools::decode::decode_initialize(&tx, &init_data, &accounts[..2].to_vec()).unwrap();
    assert_eq!(init.usdc_mint, bs58::encode(&usdc).into_string());
    assert_eq!(init.freedom_mint, bs58::encode(&freedom).into_string());
    assert_eq!(init.acct_betting_pools, "k0");
    assert_eq!(init.acct_authority, "k1");

    // set-image resolves the pool account first
    let mut si_data = betting_pools::decode::SET_IMAGE_DISC.to_le_bytes().to_vec();
    si_data.extend_from_slice(&borsh_str("img://x"));
    let si =
        betting_pools::decode::decode_set_image(&tx, &si_data, &accounts[..3].to_vec()).unwrap();
    assert_eq!(si.image_url, "img://x");
    assert_eq!(si.acct_pool, "k0");
    assert_eq!(si.acct_betting_pools, "k1");
    assert_eq!(si.acct_authority, "k2");
}

#[test]
fn token_type_enum_names_round_trip() {
    assert_eq!(TokenTypeEnum::TokenTypeUsdc.as_str_name(), "TOKEN_TYPE_USDC");
    assert_eq!(
        TokenTypeEnum::TokenTypePoints.as_str_name(),
        "TOKEN_TYPE_POINTS"
    );
    assert_eq!(
        TokenTypeEnum::from_str_name("TOKEN_TYPE_USDC"),
        Some(TokenTypeEnum::TokenTypeUsdc)
    );
    assert_eq!(
        TokenTypeEnum::from_str_name("TOKEN_TYPE_POINTS"),
        Some(TokenTypeEnum::TokenTypePoints)
    );
    assert_eq!(TokenTypeEnum::from_str_name("TOKEN_TYPE_OTHER"), None);
}

#[test]
fn enum_codes_match_wire_numbering() {
    assert_eq!(map_enum_token_type(TokenType::Usdc), 0);
    assert_eq!(map_enum_token_type(TokenType::Points), 1);
    assert_eq!(map_enum_pool_status(PoolStatus::Pending), 1);
    assert_eq!(map_enum_pool_status(PoolStatus::Graded), 2);
    assert_eq!(map_enum_pool_status(PoolStatus::Regraded), 3);
}
