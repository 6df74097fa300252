use vstd::prelude::*;

use crate::error::ErrorCode;
use crate::state::{sat_add, sat_add_spec, stakes_within_pools, AccountId, BetRecord, Market};

verus! {

/// The side of a market a stake is placed on.
#[derive(Clone, Copy, Debug, PartialEq, Eq, Structural)]
pub enum Side {
    Yes,
    No,
}

/// The error a bet aborts with, if any, checked in this order: a zero amount,
/// a resolved market, a closed betting window, a record already claimed, and
/// a record whose stored key does not match the calling market and bettor.
///
/// A record whose market identity is all-zero is fresh from the host and
/// matches any caller: its key fields are filled in by this first stake.
pub open spec fn bet_error(
    m: Market,
    r: BetRecord,
    amount: u64,
    bettor: AccountId,
    market_key: AccountId,
    now: i64,
) -> Option<ErrorCode> {
    if amount == 0 {
        Some(ErrorCode::InvalidAmount)
    } else if m.is_resolved {
        Some(ErrorCode::Resolved)
    } else if now >= m.end_time {
        Some(ErrorCode::Ended)
    } else if r.claimed {
        Some(ErrorCode::AlreadyClaimed)
    } else if !r.market.is_zero() && (r.market != market_key || r.bettor != bettor) {
        Some(ErrorCode::InvalidBetRecord)
    } else {
        None
    }
}

/// What placing a bet returns: the market with the chosen pool grown by
/// `amount` and the record with the same side's stake grown by `amount`,
/// both with saturating addition, or the error the call aborts with.
///
/// A fresh record (all-zero market identity) is first keyed to this market
/// and bettor with both stakes zero; an existing record accumulates.
pub open spec fn bet_spec(
    m: Market,
    r: BetRecord,
    side: Side,
    amount: u64,
    bettor: AccountId,
    market_key: AccountId,
    now: i64,
) -> Result<(Market, BetRecord), ErrorCode> {
    match bet_error(m, r, amount, bettor, market_key, now) {
        Some(e) => Err(e),
        None => {
            let r0 = if r.market.is_zero() {
                BetRecord { market: market_key, bettor, yes_amount: 0, no_amount: 0, claimed: false }
            } else {
                r
            };
            match side {
                Side::Yes => Ok(
                    (
                        Market { yes_pool: sat_add_spec(m.yes_pool, amount), ..m },
                        BetRecord { yes_amount: sat_add_spec(r0.yes_amount, amount), ..r0 },
                    ),
                ),
                Side::No => Ok(
                    (
                        Market { no_pool: sat_add_spec(m.no_pool, amount), ..m },
                        BetRecord { no_amount: sat_add_spec(r0.no_amount, amount), ..r0 },
                    ),
                ),
            }
        },
    }
}

/// Accepts a stake on one side of an open market.
///
/// All validation precedes any mutation, so an error leaves the market and
/// the record exactly as they were. On success the chosen pool and the
/// record's matching stake both grow by `amount`; the deadline, creator,
/// question and resolution state are untouched, and the pools never shrink.
pub fn place_bet(
    market: &mut Market,
    record: &mut BetRecord,
    side: Side,
    amount: u64,
    bettor: AccountId,
    market_key: AccountId,
    now: i64,
) -> (r: Result<(), ErrorCode>)
    ensures
        match bet_spec(*old(market), *old(record), side, amount, bettor, market_key, now) {
            Ok((m1, r1)) => {
                &&& r == Ok::<(), ErrorCode>(())
                &&& *final(market) == m1
                &&& *final(record) == r1
            },
            Err(e) => {
                &&& r == Err::<(), ErrorCode>(e)
                &&& *final(market) == *old(market)
                &&& *final(record) == *old(record)
            },
        },
        final(market).yes_pool >= old(market).yes_pool,
        final(market).no_pool >= old(market).no_pool,
        final(market).question == old(market).question,
        final(market).end_time == old(market).end_time,
        final(market).creator == old(market).creator,
        final(market).is_resolved == old(market).is_resolved,
        final(market).outcome == old(market).outcome,
        old(market).wf() ==> final(market).wf(),
        stakes_within_pools(*old(market), *old(record)) ==> stakes_within_pools(
            *final(market),
            *final(record),
        ),
{
    if amount == 0 {
        return Err(ErrorCode::InvalidAmount);
    }
    if market.is_resolved {
        return Err(ErrorCode::Resolved);
    }
    if now >= market.end_time {
        return Err(ErrorCode::Ended);
    }
    if record.claimed {
        return Err(ErrorCode::AlreadyClaimed);
    }
    if record.market.eq_zero() {
        record.market = market_key;
        record.bettor = bettor;
        record.yes_amount = 0;
        record.no_amount = 0;
        record.claimed = false;
    } else if record.market != market_key || record.bettor != bettor {
        return Err(ErrorCode::InvalidBetRecord);
    }
    match side {
        Side::Yes => {
            market.yes_pool = sat_add(market.yes_pool, amount);
            record.yes_amount = sat_add(record.yes_amount, amount);
        },
        Side::No => {
            market.no_pool = sat_add(market.no_pool, amount);
            record.no_amount = sat_add(record.no_amount, amount);
        },
    }
    Ok(())
}

/// Accepts a stake on the yes side of an open market.
pub fn bet_yes_handler(
    market: &mut Market,
    record: &mut BetRecord,
    amount: u64,
    bettor: AccountId,
    market_key: AccountId,
    now: i64,
) -> (r: Result<(), ErrorCode>)
    ensures
        match bet_spec(*old(market), *old(record), Side::Yes, amount, bettor, market_key, now) {
            Ok((m1, r1)) => {
                &&& r == Ok::<(), ErrorCode>(())
                &&& *final(market) == m1
                &&& *final(record) == r1
            },
            Err(e) => {
                &&& r == Err::<(), ErrorCode>(e)
                &&& *final(market) == *old(market)
                &&& *final(record) == *old(record)
            },
        },
{
    place_bet(market, record, Side::Yes, amount, bettor, market_key, now)
}

/// Accepts a stake on the no side of an open market.
pub fn bet_no_handler(
    market: &mut Market,
    record: &mut BetRecord,
    amount: u64,
    bettor: AccountId,
    market_key: AccountId,
    now: i64,
) -> (r: Result<(), ErrorCode>)
    ensures
        match bet_spec(*old(market), *old(record), Side::No, amount, bettor, market_key, now) {
            Ok((m1, r1)) => {
                &&& r == Ok::<(), ErrorCode>(())
                &&& *final(market) == m1
                &&& *final(record) == r1
            },
            Err(e) => {
                &&& r == Err::<(), ErrorCode>(e)
                &&& *final(market) == *old(market)
                &&& *final(record) == *old(record)
            },
        },
{
    place_bet(market, record, Side::No, amount, bettor, market_key, now)
}

} // verus!
