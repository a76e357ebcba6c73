//! The block decoder: walks each transaction's log lines and instruction
//! payloads and collects every event and instruction call of the program
//! into one [`Data`] record, in order.
//!
//! Its meaning is pinned by a fold: each data line a selected invocation
//! context emitted appends at most one event record, each instruction with
//! the program's id appends at most one call record, and nothing else is
//! appended.

use vstd::prelude::*;
use vstd::string::StringExecFns;
use crate::decode::{
    bet_placed_fields, bet_placed_rec, claim_payout_ifields, claim_payout_irec,
    create_pool_ifields, create_pool_irec, decode_bet_placed, decode_claim_payout,
    decode_create_pool, decode_grade_bet, decode_initialize, decode_payout_claimed,
    decode_place_bet, decode_pool_closed, decode_pool_created, decode_pool_image_set,
    decode_set_image, grade_bet_ifields, grade_bet_irec, initialize_ifields, initialize_irec,
    payout_claimed_fields, payout_claimed_rec, place_bet_ifields, place_bet_irec,
    pool_closed_fields, pool_closed_rec, pool_created_fields, pool_created_rec,
    pool_image_set_fields, pool_image_set_rec, set_image_ifields, set_image_irec, u64_at,
    BetPlacedRec, ClaimPayoutIRec, CreatePoolIRec, GradeBetIRec, InitializeIRec, PayoutClaimedRec,
    PlaceBetIRec, PoolClosedRec, PoolCreatedRec, PoolImageSetRec, SetImageIRec, BET_PLACED_DISC,
    CLAIM_PAYOUT_DISC, CREATE_POOL_DISC, GRADE_BET_DISC, INITIALIZE_DISC, PAYOUT_CLAIMED_DISC,
    PLACE_BET_DISC, POOL_CLOSED_DISC, POOL_CREATED_DISC, POOL_IMAGE_SET_DISC, PROGRAM_ID,
    SET_IMAGE_DISC,
};
use crate::logscan::{check_logs, logs_well_formed};
use crate::pb::Data;
use crate::wire::read_u64_le;
use crate::wrappers::{base64_decode, base64_decoded, parse_log_contexts, parsed_log_contexts,
    LogRecord};

verus! {

/// One instruction as the host hands it over: the program called, its
/// raw payload, and the account identities it resolved, in order.
pub struct InstructionRecord {
    pub program_id: String,
    pub data: Vec<u8>,
    pub accounts: Vec<String>,
}

/// One transaction as the host hands it over: its signature, its log
/// lines, and every instruction it carried, in order.
pub struct TransactionRecord {
    pub id: String,
    pub log_messages: Vec<String>,
    pub instructions: Vec<InstructionRecord>,
}

/// The plain values an [`InstructionRecord`] carries.
pub struct InstrRec {
    pub program_id: Seq<char>,
    pub data: Seq<u8>,
    pub accounts: Seq<Seq<char>>,
}

/// The plain values a [`TransactionRecord`] carries.
pub struct TxRec {
    pub id: Seq<char>,
    pub logs: Seq<Seq<char>>,
    pub instructions: Seq<InstrRec>,
}

/// The values `ins` carries.
pub open spec fn instr_rec(ins: InstructionRecord) -> InstrRec {
    InstrRec {
        program_id: ins.program_id@,
        data: ins.data@,
        accounts: ins.accounts.deep_view(),
    }
}

/// The values `t` carries.
pub open spec fn tx_rec(t: TransactionRecord) -> TxRec {
    TxRec {
        id: t.id@,
        logs: t.log_messages.deep_view(),
        instructions: t.instructions@.map_values(|ins: InstructionRecord| instr_rec(ins)),
    }
}

/// The values a [`Data`] record's eleven lists carry.
#[verifier::ext_equal]
pub struct DataRec {
    pub bet_placed: Seq<BetPlacedRec>,
    pub payout_claimed: Seq<PayoutClaimedRec>,
    pub pool_closed: Seq<PoolClosedRec>,
    pub pool_created: Seq<PoolCreatedRec>,
    pub pool_image_set: Seq<PoolImageSetRec>,
    pub claim_payout: Seq<ClaimPayoutIRec>,
    pub create_pool: Seq<CreatePoolIRec>,
    pub grade_bet: Seq<GradeBetIRec>,
    pub initialize: Seq<InitializeIRec>,
    pub place_bet: Seq<PlaceBetIRec>,
    pub set_image: Seq<SetImageIRec>,
}

/// The values `d` carries.
pub open spec fn data_rec(d: Data) -> DataRec {
    DataRec {
        bet_placed: d.bet_placed_event_list@.map_values(|e| bet_placed_rec(e)),
        payout_claimed: d.payout_claimed_event_list@.map_values(|e| payout_claimed_rec(e)),
        pool_closed: d.pool_closed_event_list@.map_values(|e| pool_closed_rec(e)),
        pool_created: d.pool_created_event_list@.map_values(|e| pool_created_rec(e)),
        pool_image_set: d.pool_image_set_event_list@.map_values(|e| pool_image_set_rec(e)),
        claim_payout: d.claim_payout_instruction_list@.map_values(|e| claim_payout_irec(e)),
        create_pool: d.create_pool_instruction_list@.map_values(|e| create_pool_irec(e)),
        grade_bet: d.grade_bet_instruction_list@.map_values(|e| grade_bet_irec(e)),
        initialize: d.initialize_instruction_list@.map_values(|e| initialize_irec(e)),
        place_bet: d.place_bet_instruction_list@.map_values(|e| place_bet_irec(e)),
        set_image: d.set_image_instruction_list@.map_values(|e| set_image_irec(e)),
    }
}

/// The record with nothing decoded yet.
pub open spec fn data_rec_empty() -> DataRec {
    DataRec {
        bet_placed: Seq::empty(),
        payout_claimed: Seq::empty(),
        pool_closed: Seq::empty(),
        pool_created: Seq::empty(),
        pool_image_set: Seq::empty(),
        claim_payout: Seq::empty(),
        create_pool: Seq::empty(),
        grade_bet: Seq::empty(),
        initialize: Seq::empty(),
        place_bet: Seq::empty(),
        set_image: Seq::empty(),
    }
}

/// What one emitted data line adds: the event its decoded payload's
/// discriminator names, when the payload decodes.
pub open spec fn event_applied(m: DataRec, tx: Seq<char>, line: Seq<char>) -> DataRec {
    match base64_decoded(line) {
        None => m,
        Some(p) => {
            if p.len() < 8 {
                m
            } else {
                let d = u64_at(p, 0);
                if d == BET_PLACED_DISC {
                    match bet_placed_fields(tx, p) {
                        Some(rec) => DataRec { bet_placed: m.bet_placed.push(rec), ..m },
                        None => m,
                    }
                } else if d == PAYOUT_CLAIMED_DISC {
                    match payout_claimed_fields(tx, p) {
                        Some(rec) => DataRec { payout_claimed: m.payout_claimed.push(rec), ..m },
                        None => m,
                    }
                } else if d == POOL_CLOSED_DISC {
                    match pool_closed_fields(tx, p) {
                        Some(rec) => DataRec { pool_closed: m.pool_closed.push(rec), ..m },
                        None => m,
                    }
                } else if d == POOL_CREATED_DISC {
                    match pool_created_fields(tx, p) {
                        Some(rec) => DataRec { pool_created: m.pool_created.push(rec), ..m },
                        None => m,
                    }
                } else if d == POOL_IMAGE_SET_DISC {
                    match pool_image_set_fields(tx, p) {
                        Some(rec) => DataRec { pool_image_set: m.pool_image_set.push(rec), ..m },
                        None => m,
                    }
                } else {
                    m
                }
            }
        },
    }
}

/// The data lines of one context, folded from line `i` on.
pub open spec fn events_applied(m: DataRec, tx: Seq<char>, lines: Seq<Seq<char>>, i: int) -> DataRec
    decreases lines.len() - i,
{
    if !(0 <= i < lines.len()) {
        m
    } else {
        events_applied(event_applied(m, tx, lines[i]), tx, lines, i + 1)
    }
}

/// The invocation contexts folded from context `i` on; only contexts of
/// the program itself contribute.
pub open spec fn contexts_applied(
    m: DataRec,
    tx: Seq<char>,
    ctxs: Seq<(Seq<char>, Seq<Seq<char>>)>,
    i: int,
) -> DataRec
    decreases ctxs.len() - i,
{
    if !(0 <= i < ctxs.len()) {
        m
    } else {
        let m1 = if ctxs[i].0 == PROGRAM_ID@ {
            events_applied(m, tx, ctxs[i].1, 0)
        } else {
            m
        };
        contexts_applied(m1, tx, ctxs, i + 1)
    }
}

/// What one transaction's log lines add: the events of the program's
/// contexts, when the lines keep the parser's stack discipline, and
/// nothing otherwise.
pub open spec fn logs_events_applied(m: DataRec, tx: Seq<char>, logs: Seq<Seq<char>>) -> DataRec {
    if logs_well_formed(logs) {
        contexts_applied(m, tx, parsed_log_contexts(logs), 0)
    } else {
        m
    }
}

/// What one instruction adds: the call record its discriminator names,
/// when the instruction is the program's and its payload decodes.
pub open spec fn instruction_applied(m: DataRec, tx: Seq<char>, ins: InstrRec) -> DataRec {
    if ins.program_id != PROGRAM_ID@ || ins.data.len() < 8 {
        m
    } else {
        let d = u64_at(ins.data, 0);
        if d == CLAIM_PAYOUT_DISC {
            match claim_payout_ifields(tx, ins.accounts) {
                Some(rec) => DataRec { claim_payout: m.claim_payout.push(rec), ..m },
                None => m,
            }
        } else if d == CREATE_POOL_DISC {
            match create_pool_ifields(tx, ins.data, ins.accounts) {
                Some(rec) => DataRec { create_pool: m.create_pool.push(rec), ..m },
                None => m,
            }
        } else if d == GRADE_BET_DISC {
            match grade_bet_ifields(tx, ins.data, ins.accounts) {
                Some(rec) => DataRec { grade_bet: m.grade_bet.push(rec), ..m },
                None => m,
            }
        } else if d == INITIALIZE_DISC {
            match initialize_ifields(tx, ins.data, ins.accounts) {
                Some(rec) => DataRec { initialize: m.initialize.push(rec), ..m },
                None => m,
            }
        } else if d == PLACE_BET_DISC {
            match place_bet_ifields(tx, ins.data, ins.accounts) {
                Some(rec) => DataRec { place_bet: m.place_bet.push(rec), ..m },
                None => m,
            }
        } else if d == SET_IMAGE_DISC {
            match set_image_ifields(tx, ins.data, ins.accounts) {
                Some(rec) => DataRec { set_image: m.set_image.push(rec), ..m },
                None => m,
            }
        } else {
            m
        }
    }
}

/// The instructions of one transaction, folded from instruction `i` on.
pub open spec fn instructions_applied(
    m: DataRec,
    tx: Seq<char>,
    instrs: Seq<InstrRec>,
    i: int,
) -> DataRec
    decreases instrs.len() - i,
{
    if !(0 <= i < instrs.len()) {
        m
    } else {
        instructions_applied(instruction_applied(m, tx, instrs[i]), tx, instrs, i + 1)
    }
}

/// Everything one transaction adds: its events, then its instruction
/// calls.
pub open spec fn tx_applied(m: DataRec, t: TxRec) -> DataRec {
    instructions_applied(logs_events_applied(m, t.id, t.logs), t.id, t.instructions, 0)
}

/// The transactions of a block, folded from transaction `i` on.
pub open spec fn txs_applied(m: DataRec, txs: Seq<TxRec>, i: int) -> DataRec
    decreases txs.len() - i,
{
    if !(0 <= i < txs.len()) {
        m
    } else {
        txs_applied(tx_applied(m, txs[i]), txs, i + 1)
    }
}

/// Decodes one emitted data line into `out`, if it carries one of the
/// program's events.
fn decode_event(tx: &String, line: &String, out: &mut Data)
    ensures
        data_rec(*final(out)) == event_applied(data_rec(*old(out)), tx@, line@),
{
    let ghost pre = data_rec(*old(out));
    let decoded = base64_decode(line.as_str());
    match decoded {
        None => {},
        Some(p) => {
            if p.len() >= 8 {
                let d = read_u64_le(p.as_slice(), 0);
                assert(d == u64_at(p@, 0));
                if d == BET_PLACED_DISC {
                    match decode_bet_placed(tx, p.as_slice()) {
                        Some(e) => {
                            let ghost rec = bet_placed_rec(e);
                            out.bet_placed_event_list.push(e);
                            proof {
                                assert(data_rec(*out).bet_placed =~= pre.bet_placed.push(rec));
                                assert(data_rec(*out) =~~= event_applied(pre, tx@, line@));
                            }
                        },
                        None => {},
                    }
                } else if d == PAYOUT_CLAIMED_DISC {
                    match decode_payout_claimed(tx, p.as_slice()) {
                        Some(e) => {
                            let ghost rec = payout_claimed_rec(e);
                            out.payout_claimed_event_list.push(e);
                            proof {
                                assert(data_rec(*out).payout_claimed =~= pre.payout_claimed.push(
                                    rec,
                                ));
                                assert(data_rec(*out) =~~= event_applied(pre, tx@, line@));
                            }
                        },
                        None => {},
                    }
                } else if d == POOL_CLOSED_DISC {
                    match decode_pool_closed(tx, p.as_slice()) {
                        Some(e) => {
                            let ghost rec = pool_closed_rec(e);
                            out.pool_closed_event_list.push(e);
                            proof {
                                assert(data_rec(*out).pool_closed =~= pre.pool_closed.push(rec));
                                assert(data_rec(*out) =~~= event_applied(pre, tx@, line@));
                            }
                        },
                        None => {},
                    }
                } else if d == POOL_CREATED_DISC {
                    match decode_pool_created(tx, p.as_slice()) {
                        Some(e) => {
                            let ghost rec = pool_created_rec(e);
                            out.pool_created_event_list.push(e);
                            proof {
                                assert(data_rec(*out).pool_created =~= pre.pool_created.push(rec));
                                assert(data_rec(*out) =~~= event_applied(pre, tx@, line@));
                            }
                        },
                        None => {},
                    }
                } else if d == POOL_IMAGE_SET_DISC {
                    match decode_pool_image_set(tx, p.as_slice()) {
                        Some(e) => {
                            let ghost rec = pool_image_set_rec(e);
                            out.pool_image_set_event_list.push(e);
                            proof {
                                assert(data_rec(*out).pool_image_set =~= pre.pool_image_set.push(
                                    rec,
                                ));
                                assert(data_rec(*out) =~~= event_applied(pre, tx@, line@));
                            }
                        },
                        None => {},
                    }
                }
            }
        },
    }
}

/// Decodes one instruction into `out`, if it is one of the program's
/// calls.
fn decode_instruction(tx: &String, ins: &InstructionRecord, out: &mut Data)
    ensures
        data_rec(*final(out)) == instruction_applied(data_rec(*old(out)), tx@, instr_rec(*ins)),
{
    let ghost pre = data_rec(*old(out));
    let pid: String = String::from_str(PROGRAM_ID);
    if !(ins.program_id == pid) {
        return ;
    }
    if ins.data.len() < 8 {
        return ;
    }
    let d = read_u64_le(ins.data.as_slice(), 0);
    assert(d == u64_at(ins.data@, 0));
    if d == CLAIM_PAYOUT_DISC {
        match decode_claim_payout(tx, &ins.accounts) {
            Some(e) => {
                let ghost rec = claim_payout_irec(e);
                out.claim_payout_instruction_list.push(e);
                proof {
                    assert(data_rec(*out).claim_payout =~= pre.claim_payout.push(rec));
                    assert(data_rec(*out) =~~= instruction_applied(pre, tx@, instr_rec(*ins)));
                }
            },
            None => {},
        }
    } else if d == CREATE_POOL_DISC {
        match decode_create_pool(tx, ins.data.as_slice(), &ins.accounts) {
            Some(e) => {
                let ghost rec = create_pool_irec(e);
                out.create_pool_instruction_list.push(e);
                proof {
                    assert(data_rec(*out).create_pool =~= pre.create_pool.push(rec));
                    assert(data_rec(*out) =~~= instruction_applied(pre, tx@, instr_rec(*ins)));
                }
            },
            None => {},
        }
    } else if d == GRADE_BET_DISC {
        match decode_grade_bet(tx, ins.data.as_slice(), &ins.accounts) {
            Some(e) => {
                let ghost rec = grade_bet_irec(e);
                out.grade_bet_instruction_list.push(e);
                proof {
                    assert(data_rec(*out).grade_bet =~= pre.grade_bet.push(rec));
                    assert(data_rec(*out) =~~= instruction_applied(pre, tx@, instr_rec(*ins)));
                }
            },
            None => {},
        }
    } else if d == INITIALIZE_DISC {
        match decode_initialize(tx, ins.data.as_slice(), &ins.accounts) {
            Some(e) => {
                let ghost rec = initialize_irec(e);
                out.initialize_instruction_list.push(e);
                proof {
                    assert(data_rec(*out).initialize =~= pre.initialize.push(rec));
                    assert(data_rec(*out) =~~= instruction_applied(pre, tx@, instr_rec(*ins)));
                }
            },
            None => {},
        }
    } else if d == PLACE_BET_DISC {
        match decode_place_bet(tx, ins.data.as_slice(), &ins.accounts) {
            Some(e) => {
                let ghost rec = place_bet_irec(e);
                out.place_bet_instruction_list.push(e);
                proof {
                    assert(data_rec(*out).place_bet =~= pre.place_bet.push(rec));
                    assert(data_rec(*out) =~~= instruction_applied(pre, tx@, instr_rec(*ins)));
                }
            },
            None => {},
        }
    } else if d == SET_IMAGE_DISC {
        match decode_set_image(tx, ins.data.as_slice(), &ins.accounts) {
            Some(e) => {
                let ghost rec = set_image_irec(e);
                out.set_image_instruction_list.push(e);
                proof {
                    assert(data_rec(*out).set_image =~= pre.set_image.push(rec));
                    assert(data_rec(*out) =~~= instruction_applied(pre, tx@, instr_rec(*ins)));
                }
            },
            None => {},
        }
    }
}

/// The tuple views of extracted log contexts.
pub open spec fn log_records_view(v: Seq<LogRecord>) -> Seq<(Seq<char>, Seq<Seq<char>>)> {
    v.map_values(|c: LogRecord| (c.program_id@, c.data_logs.deep_view()))
}

/// Decodes the events of every context of the program, in order.
fn process_contexts(tx: &String, ctxs: &Vec<LogRecord>, out: &mut Data)
    ensures
        data_rec(*final(out)) == contexts_applied(
            data_rec(*old(out)),
            tx@,
            log_records_view(ctxs@),
            0,
        ),
{
    let ghost cv = log_records_view(ctxs@);
    let ghost m0 = data_rec(*out);
    let pid: String = String::from_str(PROGRAM_ID);
    let mut c: usize = 0;
    while c < ctxs.len()
        invariant
            cv == log_records_view(ctxs@),
            cv.len() == ctxs@.len(),
            pid@ == PROGRAM_ID@,
            c <= ctxs@.len(),
            contexts_applied(m0, tx@, cv, 0) == contexts_applied(data_rec(*out), tx@, cv, c as int),
        decreases ctxs@.len() - c,
    {
        assert(cv[c as int] == (ctxs@[c as int].program_id@, ctxs@[c as int].data_logs.deep_view()));
        let ctx = &ctxs[c];
        if ctx.program_id == pid {
            let ghost mid = data_rec(*out);
            let lines = &ctx.data_logs;
            let ghost lv = lines.deep_view();
            let mut k: usize = 0;
            while k < lines.len()
                invariant
                    lv == lines.deep_view(),
                    lv.len() == lines@.len(),
                    k <= lines@.len(),
                    events_applied(mid, tx@, lv, 0) == events_applied(
                        data_rec(*out),
                        tx@,
                        lv,
                        k as int,
                    ),
                decreases lines@.len() - k,
            {
                assert(lv[k as int] == lines@[k as int]@);
                decode_event(tx, &lines[k], out);
                k = k + 1;
            }
            assert(data_rec(*out) == events_applied(mid, tx@, cv[c as int].1, 0));
        }
        c = c + 1;
    }
}

/// Decodes everything one transaction carries into `out`: the events its
/// well-formed log lines hold, then its instruction calls.
pub fn process_transaction(t: &TransactionRecord, out: &mut Data)
    ensures
        data_rec(*final(out)) == tx_applied(data_rec(*old(out)), tx_rec(*t)),
{
    let ghost m0 = data_rec(*out);
    if check_logs(&t.log_messages) {
        let ctxs = parse_log_contexts(&t.log_messages);
        proof {
            assert(log_records_view(ctxs@) =~~= parsed_log_contexts(t.log_messages.deep_view()));
        }
        process_contexts(&t.id, &ctxs, out);
    }
    assert(data_rec(*out) == logs_events_applied(m0, t.id@, t.log_messages.deep_view()));
    let ghost m1 = data_rec(*out);
    let ghost iv = tx_rec(*t).instructions;
    let mut i: usize = 0;
    while i < t.instructions.len()
        invariant
            iv == tx_rec(*t).instructions,
            iv.len() == t.instructions@.len(),
            i <= t.instructions@.len(),
            instructions_applied(m1, t.id@, iv, 0) == instructions_applied(
                data_rec(*out),
                t.id@,
                iv,
                i as int,
            ),
        decreases t.instructions@.len() - i,
    {
        assert(iv[i as int] == instr_rec(t.instructions@[i as int]));
        decode_instruction(&t.id, &t.instructions[i], out);
        i = i + 1;
    }
}

/// Decodes a block: every event and every instruction call of the
/// program, over all transactions, in order.
pub fn map_program_data(transactions: &Vec<TransactionRecord>) -> (d: Data)
    ensures
        data_rec(d) == txs_applied(
            data_rec_empty(),
            transactions@.map_values(|t: TransactionRecord| tx_rec(t)),
            0,
        ),
{
    let ghost txs = transactions@.map_values(|t: TransactionRecord| tx_rec(t));
    let mut d = Data {
        bet_placed_event_list: Vec::new(),
        payout_claimed_event_list: Vec::new(),
        pool_closed_event_list: Vec::new(),
        pool_created_event_list: Vec::new(),
        pool_image_set_event_list: Vec::new(),
        claim_payout_instruction_list: Vec::new(),
        create_pool_instruction_list: Vec::new(),
        grade_bet_instruction_list: Vec::new(),
        initialize_instruction_list: Vec::new(),
        place_bet_instruction_list: Vec::new(),
        set_image_instruction_list: Vec::new(),
    };
    proof {
        assert(data_rec(d) =~~= data_rec_empty());
    }
    let mut i: usize = 0;
    while i < transactions.len()
        invariant
            txs == transactions@.map_values(|t: TransactionRecord| tx_rec(t)),
            txs.len() == transactions@.len(),
            i <= transactions@.len(),
            txs_applied(data_rec_empty(), txs, 0) == txs_applied(data_rec(d), txs, i as int),
        decreases transactions@.len() - i,
    {
        assert(txs[i as int] == tx_rec(transactions@[i as int]));
        process_transaction(&transactions[i], &mut d);
        i = i + 1;
    }
    d
}

} // verus!
