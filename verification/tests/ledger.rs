use ai_prediction_market::bet::{bet_no_handler, bet_yes_handler, place_bet, Side};
use ai_prediction_market::claim::claim_handler;
use ai_prediction_market::create_market::create_market_handler;
use ai_prediction_market::error::ErrorCode;
use ai_prediction_market::resolve::resolve_handler;
use ai_prediction_market::state::{
    sat_add, sat_sub, AccountId, BetRecord, Market, MAX_QUESTION_LEN, OUTCOME_NO,
    OUTCOME_UNRESOLVED, OUTCOME_YES,
};

fn id(n: u64) -> AccountId {
    AccountId { w0: n, w1: 0, w2: 0, w3: 0 }
}

fn open_market(end_time: i64, creator: AccountId) -> Market {
    create_market_handler(b"will it rain tomorrow?".to_vec(), end_time, creator).unwrap()
}

#[test]
fn create_market_initial_state() {
    let creator = id(1);
    let m = create_market_handler(b"question".to_vec(), 500, creator).unwrap();
    assert_eq!(m.question, b"question".to_vec());
    assert_eq!(m.end_time, 500);
    assert_eq!(m.creator, id(1));
    assert_eq!(m.yes_pool, 0);
    assert_eq!(m.no_pool, 0);
    assert!(!m.is_resolved);
    assert_eq!(m.outcome, OUTCOME_UNRESOLVED);
}

#[test]
fn create_market_question_at_maximum() {
    let q = vec![b'x'; MAX_QUESTION_LEN];
    let m = create_market_handler(q.clone(), 1, id(1)).unwrap();
    assert_eq!(m.question, q);
}

#[test]
fn create_market_question_too_long() {
    let q = vec![b'x'; MAX_QUESTION_LEN + 1];
    let r = create_market_handler(q, 1, id(1));
    assert_eq!(r.unwrap_err(), ErrorCode::QuestionTooLong);
}

#[test]
fn bet_zero_amount_rejected() {
    let mut m = open_market(100, id(1));
    let mut rec = BetRecord::fresh();
    let r = bet_yes_handler(&mut m, &mut rec, 0, id(2), id(9), 0);
    assert_eq!(r.unwrap_err(), ErrorCode::InvalidAmount);
    assert_eq!(m.yes_pool, 0);
    assert_eq!(rec, BetRecord::fresh());
}

#[test]
fn bet_first_stake_keys_the_record() {
    let mut m = open_market(100, id(1));
    let mut rec = BetRecord::fresh();
    bet_yes_handler(&mut m, &mut rec, 70, id(2), id(9), 10).unwrap();
    assert_eq!(rec.market, id(9));
    assert_eq!(rec.bettor, id(2));
    assert_eq!(rec.yes_amount, 70);
    assert_eq!(rec.no_amount, 0);
    assert!(!rec.claimed);
    assert_eq!(m.yes_pool, 70);
    assert_eq!(m.no_pool, 0);
}

#[test]
fn bet_stakes_accumulate() {
    // Two bets of 50 each from the same bettor on yes must leave 100 in the
    // record, never 50: the second stake adds to the first.
    let mut m = open_market(100, id(1));
    let mut rec = BetRecord::fresh();
    bet_yes_handler(&mut m, &mut rec, 50, id(2), id(9), 10).unwrap();
    bet_yes_handler(&mut m, &mut rec, 50, id(2), id(9), 11).unwrap();
    assert_eq!(rec.yes_amount, 100);
    assert_eq!(m.yes_pool, 100);
}

#[test]
fn bet_sides_are_independent() {
    let mut m = open_market(100, id(1));
    let mut rec = BetRecord::fresh();
    bet_yes_handler(&mut m, &mut rec, 30, id(2), id(9), 10).unwrap();
    bet_no_handler(&mut m, &mut rec, 40, id(2), id(9), 11).unwrap();
    assert_eq!(rec.yes_amount, 30);
    assert_eq!(rec.no_amount, 40);
    assert_eq!(m.yes_pool, 30);
    assert_eq!(m.no_pool, 40);
}

#[test]
fn bet_at_deadline_rejected() {
    let mut m = open_market(100, id(1));
    let mut rec = BetRecord::fresh();
    let r = bet_yes_handler(&mut m, &mut rec, 10, id(2), id(9), 100);
    assert_eq!(r.unwrap_err(), ErrorCode::Ended);
    let r = bet_no_handler(&mut m, &mut rec, 10, id(2), id(9), 101);
    assert_eq!(r.unwrap_err(), ErrorCode::Ended);
    assert_eq!(m.yes_pool, 0);
    assert_eq!(m.no_pool, 0);
}

#[test]
fn bet_on_resolved_market_rejected_regardless_of_time() {
    let mut m = open_market(100, id(1));
    resolve_handler(&mut m, OUTCOME_YES, id(1), 0).unwrap();
    let mut rec = BetRecord::fresh();
    // still before the deadline, but the market is resolved
    let r = bet_yes_handler(&mut m, &mut rec, 10, id(2), id(9), 0);
    assert_eq!(r.unwrap_err(), ErrorCode::Resolved);
}

#[test]
fn bet_with_claimed_record_rejected() {
    let mut m = open_market(100, id(1));
    let mut rec = BetRecord {
        market: id(9),
        bettor: id(2),
        yes_amount: 5,
        no_amount: 0,
        claimed: true,
    };
    let r = bet_yes_handler(&mut m, &mut rec, 10, id(2), id(9), 0);
    assert_eq!(r.unwrap_err(), ErrorCode::AlreadyClaimed);
}

#[test]
fn bet_with_foreign_record_rejected() {
    let mut m = open_market(100, id(1));
    let mut rec = BetRecord::fresh();
    bet_yes_handler(&mut m, &mut rec, 10, id(2), id(9), 0).unwrap();
    // wrong market key
    let r = bet_yes_handler(&mut m, &mut rec, 10, id(2), id(8), 1);
    assert_eq!(r.unwrap_err(), ErrorCode::InvalidBetRecord);
    // wrong bettor
    let r = bet_yes_handler(&mut m, &mut rec, 10, id(3), id(9), 1);
    assert_eq!(r.unwrap_err(), ErrorCode::InvalidBetRecord);
    assert_eq!(rec.yes_amount, 10);
    assert_eq!(m.yes_pool, 10);
}

#[test]
fn bet_pools_saturate_at_maximum() {
    let mut m = open_market(100, id(1));
    let mut rec = BetRecord::fresh();
    bet_yes_handler(&mut m, &mut rec, u64::MAX, id(2), id(9), 0).unwrap();
    bet_yes_handler(&mut m, &mut rec, 7, id(2), id(9), 1).unwrap();
    assert_eq!(m.yes_pool, u64::MAX);
    assert_eq!(rec.yes_amount, u64::MAX);
}

#[test]
fn place_bet_matches_side_handlers() {
    let mut m = open_market(100, id(1));
    let mut rec = BetRecord::fresh();
    place_bet(&mut m, &mut rec, Side::Yes, 5, id(2), id(9), 0).unwrap();
    place_bet(&mut m, &mut rec, Side::No, 6, id(2), id(9), 0).unwrap();
    assert_eq!((m.yes_pool, m.no_pool), (5, 6));
}

#[test]
fn resolve_before_deadline_by_creator() {
    let mut m = open_market(100, id(1));
    resolve_handler(&mut m, OUTCOME_YES, id(1), 0).unwrap();
    assert!(m.is_resolved);
    assert_eq!(m.outcome, OUTCOME_YES);
}

#[test]
fn resolve_before_deadline_by_stranger_rejected() {
    let mut m = open_market(100, id(1));
    let r = resolve_handler(&mut m, OUTCOME_YES, id(2), 99);
    assert_eq!(r.unwrap_err(), ErrorCode::NotEnded);
    assert!(!m.is_resolved);
    assert_eq!(m.outcome, OUTCOME_UNRESOLVED);
}

#[test]
fn resolve_after_deadline_by_anyone() {
    let mut m = open_market(100, id(1));
    resolve_handler(&mut m, OUTCOME_NO, id(42), 100).unwrap();
    assert!(m.is_resolved);
    assert_eq!(m.outcome, OUTCOME_NO);
}

#[test]
fn resolve_invalid_outcome_rejected() {
    let mut m = open_market(100, id(1));
    let r = resolve_handler(&mut m, 2, id(1), 200);
    assert_eq!(r.unwrap_err(), ErrorCode::InvalidOutcome);
    assert!(!m.is_resolved);
}

#[test]
fn resolve_is_one_shot() {
    let mut m = open_market(100, id(1));
    resolve_handler(&mut m, OUTCOME_YES, id(1), 200).unwrap();
    let r = resolve_handler(&mut m, OUTCOME_NO, id(1), 201);
    assert_eq!(r.unwrap_err(), ErrorCode::Resolved);
    assert_eq!(m.outcome, OUTCOME_YES);
}

#[test]
fn claim_on_unresolved_market_rejected() {
    let m = open_market(100, id(1));
    let mut rec = BetRecord {
        market: id(9),
        bettor: id(2),
        yes_amount: 10,
        no_amount: 0,
        claimed: false,
    };
    let r = claim_handler(&m, &mut rec, id(2), id(9), 1000, 0);
    assert_eq!(r.unwrap_err(), ErrorCode::NotResolved);
    assert!(!rec.claimed);
}

#[test]
fn claim_full_lifecycle() {
    // Bettor A stakes 100 on yes, bettor B stakes 300 on no; the market
    // resolves no after the deadline. B is owed floor(300 * 400 / 300) = 400
    // and A has nothing to claim.
    let creator = id(1);
    let a = id(2);
    let b = id(3);
    let mkey = id(9);
    let mut m = open_market(100, creator);
    let mut rec_a = BetRecord::fresh();
    let mut rec_b = BetRecord::fresh();
    bet_yes_handler(&mut m, &mut rec_a, 100, a, mkey, 10).unwrap();
    bet_no_handler(&mut m, &mut rec_b, 300, b, mkey, 20).unwrap();
    resolve_handler(&mut m, OUTCOME_NO, id(42), 150).unwrap();

    let escrow_balance = 1400u64;
    let reserved_floor = 1000u64;
    let payout = claim_handler(&m, &mut rec_b, b, mkey, escrow_balance, reserved_floor).unwrap();
    assert_eq!(payout, 400);
    assert!(rec_b.claimed);

    let r = claim_handler(&m, &mut rec_a, a, mkey, escrow_balance - payout, reserved_floor);
    assert_eq!(r.unwrap_err(), ErrorCode::NothingToClaim);
    assert!(!rec_a.claimed);
}

#[test]
fn claim_is_exactly_once() {
    let mut m = open_market(100, id(1));
    let mut rec = BetRecord::fresh();
    bet_yes_handler(&mut m, &mut rec, 50, id(2), id(9), 0).unwrap();
    resolve_handler(&mut m, OUTCOME_YES, id(1), 200).unwrap();
    let payout = claim_handler(&m, &mut rec, id(2), id(9), 500, 0).unwrap();
    assert_eq!(payout, 50);
    let r = claim_handler(&m, &mut rec, id(2), id(9), 500, 0);
    assert_eq!(r.unwrap_err(), ErrorCode::AlreadyClaimed);
    assert!(rec.claimed);
}

#[test]
fn claim_with_foreign_record_rejected() {
    let mut m = open_market(100, id(1));
    let mut rec = BetRecord::fresh();
    bet_yes_handler(&mut m, &mut rec, 50, id(2), id(9), 0).unwrap();
    resolve_handler(&mut m, OUTCOME_YES, id(1), 200).unwrap();
    let r = claim_handler(&m, &mut rec, id(2), id(8), 500, 0);
    assert_eq!(r.unwrap_err(), ErrorCode::InvalidBetRecord);
    let r = claim_handler(&m, &mut rec, id(3), id(9), 500, 0);
    assert_eq!(r.unwrap_err(), ErrorCode::InvalidBetRecord);
}

#[test]
fn claim_with_empty_winning_pool_rejected() {
    let mut m = open_market(100, id(1));
    let mut rec = BetRecord::fresh();
    bet_no_handler(&mut m, &mut rec, 50, id(2), id(9), 0).unwrap();
    // resolves yes, but nobody staked on yes
    resolve_handler(&mut m, OUTCOME_YES, id(1), 200).unwrap();
    let r = claim_handler(&m, &mut rec, id(2), id(9), 500, 0);
    assert_eq!(r.unwrap_err(), ErrorCode::NothingToClaim);
}

#[test]
fn claim_beyond_available_escrow_rejected() {
    let mut m = open_market(100, id(1));
    let mut rec = BetRecord::fresh();
    bet_yes_handler(&mut m, &mut rec, 400, id(2), id(9), 0).unwrap();
    resolve_handler(&mut m, OUTCOME_YES, id(1), 200).unwrap();
    // payout would be 400, but only 399 sit above the reserved floor
    let r = claim_handler(&m, &mut rec, id(2), id(9), 499, 100);
    assert_eq!(r.unwrap_err(), ErrorCode::InsufficientPool);
    assert!(!rec.claimed);
    // with one more unit available the claim goes through
    let payout = claim_handler(&m, &mut rec, id(2), id(9), 500, 100).unwrap();
    assert_eq!(payout, 400);
}

#[test]
fn claim_rounds_payouts_down() {
    // yes stakes of 1 and 2 against a no pool of 1: total 4, winning 3.
    // Payouts floor(1*4/3) = 1 and floor(2*4/3) = 2; together 3 <= 4.
    let mut m = open_market(100, id(1));
    let mut rec_a = BetRecord::fresh();
    let mut rec_b = BetRecord::fresh();
    let mut rec_c = BetRecord::fresh();
    bet_yes_handler(&mut m, &mut rec_a, 1, id(2), id(9), 0).unwrap();
    bet_yes_handler(&mut m, &mut rec_b, 2, id(3), id(9), 0).unwrap();
    bet_no_handler(&mut m, &mut rec_c, 1, id(4), id(9), 0).unwrap();
    resolve_handler(&mut m, OUTCOME_YES, id(1), 200).unwrap();
    let pa = claim_handler(&m, &mut rec_a, id(2), id(9), 4, 0).unwrap();
    let pb = claim_handler(&m, &mut rec_b, id(3), id(9), 4 - pa, 0).unwrap();
    assert_eq!(pa, 1);
    assert_eq!(pb, 2);
    assert!(pa + pb <= 4);
}

#[test]
fn claim_disburses_whole_pool_when_division_is_exact() {
    // yes stakes of 1 and 2 against a no pool of 3: total 6, winning 3.
    // Payouts 2 and 4; together exactly the combined pool.
    let mut m = open_market(100, id(1));
    let mut rec_a = BetRecord::fresh();
    let mut rec_b = BetRecord::fresh();
    let mut rec_c = BetRecord::fresh();
    bet_yes_handler(&mut m, &mut rec_a, 1, id(2), id(9), 0).unwrap();
    bet_yes_handler(&mut m, &mut rec_b, 2, id(3), id(9), 0).unwrap();
    bet_no_handler(&mut m, &mut rec_c, 3, id(4), id(9), 0).unwrap();
    resolve_handler(&mut m, OUTCOME_YES, id(1), 200).unwrap();
    let pa = claim_handler(&m, &mut rec_a, id(2), id(9), 6, 0).unwrap();
    let pb = claim_handler(&m, &mut rec_b, id(3), id(9), 6 - pa, 0).unwrap();
    assert_eq!(pa + pb, 6);
}

#[test]
fn losing_stake_alone_claims_nothing() {
    let mut m = open_market(100, id(1));
    let mut rec = BetRecord::fresh();
    bet_yes_handler(&mut m, &mut rec, 100, id(2), id(9), 0).unwrap();
    bet_no_handler(&mut m, &mut rec, 5, id(2), id(9), 0).unwrap();
    resolve_handler(&mut m, OUTCOME_NO, id(1), 200).unwrap();
    // the same bettor's no stake wins: floor(5 * 105 / 5) = 105
    let payout = claim_handler(&m, &mut rec, id(2), id(9), 200, 0).unwrap();
    assert_eq!(payout, 105);
}

#[test]
fn saturating_helpers_clamp() {
    assert_eq!(sat_add(1, 2), 3);
    assert_eq!(sat_add(u64::MAX, 1), u64::MAX);
    assert_eq!(sat_add(u64::MAX - 1, 1), u64::MAX);
    assert_eq!(sat_sub(5, 2), 3);
    assert_eq!(sat_sub(2, 5), 0);
    assert_eq!(sat_sub(2, 2), 0);
}

#[test]
fn zero_identity_matches_fresh_record() {
    assert!(AccountId::zero().eq_zero());
    assert!(!id(1).eq_zero());
    assert_eq!(BetRecord::fresh().market, AccountId::zero());
}
