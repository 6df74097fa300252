use vstd::prelude::*;

use crate::error::ErrorCode;
use crate::state::{sat_add, sat_sub, sat_sub_spec, AccountId, BetRecord, Market, OUTCOME_NO, OUTCOME_YES};

verus! {

/// The pool on the resolved market's winning side.
pub open spec fn winning_pool(m: Market) -> u64 {
    if m.outcome == OUTCOME_YES {
        m.yes_pool
    } else {
        m.no_pool
    }
}

/// A bettor's cumulative stake on the resolved market's winning side.
pub open spec fn winning_stake(m: Market, r: BetRecord) -> u64 {
    if m.outcome == OUTCOME_YES {
        r.yes_amount
    } else {
        r.no_amount
    }
}

/// The proportional payout of a stake of `share` out of a winning pool of
/// `winning`, paid from a combined pool of `total`:
/// `floor(share * total / winning)`.
///
/// The multiplication precedes the division; reversing the order would
/// change the rounding.
pub open spec fn payout_of(share: u64, total: u64, winning: u64) -> int
    recommends
        winning > 0,
{
    (share * total) / (winning as int)
}

/// What claiming returns: the record marked claimed together with the payout
/// owed, or the error the call aborts with, checked in this order: an
/// unresolved market, a record already claimed, a record whose stored key
/// does not match the calling market and bettor, nothing staked on the
/// winning side (by anyone, by this bettor, or a payout rounding to zero),
/// and an escrow balance that cannot cover the payout above its reserved
/// floor.
pub open spec fn claim_spec(
    m: Market,
    r: BetRecord,
    bettor: AccountId,
    market_key: AccountId,
    market_balance: u64,
    reserved_floor: u64,
) -> Result<(BetRecord, u64), ErrorCode> {
    if !m.is_resolved || m.outcome > OUTCOME_NO {
        Err(ErrorCode::NotResolved)
    } else if r.claimed {
        Err(ErrorCode::AlreadyClaimed)
    } else if r.market != market_key || r.bettor != bettor {
        Err(ErrorCode::InvalidBetRecord)
    } else if winning_pool(m) == 0 || winning_stake(m, r) == 0 {
        Err(ErrorCode::NothingToClaim)
    } else {
        let p = payout_of(winning_stake(m, r), m.total_pool(), winning_pool(m));
        if p == 0 {
            Err(ErrorCode::NothingToClaim)
        } else if p > sat_sub_spec(market_balance, reserved_floor) {
            Err(ErrorCode::InsufficientPool)
        } else {
            Ok((BetRecord { claimed: true, ..r }, p as u64))
        }
    }
}

/// Disburses a winning bettor's proportional share exactly once.
///
/// On success the returned payout is `floor(share * total / winning)`, the
/// record is marked claimed, and the host owes the bettor that amount from
/// the market's escrow. On any error the record is unchanged; a second call
/// after a success always fails with `AlreadyClaimed`.
pub fn claim_handler(
    market: &Market,
    record: &mut BetRecord,
    bettor: AccountId,
    market_key: AccountId,
    market_balance: u64,
    reserved_floor: u64,
) -> (r: Result<u64, ErrorCode>)
    ensures
        match claim_spec(*market, *old(record), bettor, market_key, market_balance, reserved_floor) {
            Ok((r1, p)) => r == Ok::<u64, ErrorCode>(p) && *final(record) == r1,
            Err(e) => r == Err::<u64, ErrorCode>(e) && *final(record) == *old(record),
        },
{
    if !market.is_resolved || market.outcome > OUTCOME_NO {
        return Err(ErrorCode::NotResolved);
    }
    if record.claimed {
        return Err(ErrorCode::AlreadyClaimed);
    }
    if record.market != market_key || record.bettor != bettor {
        return Err(ErrorCode::InvalidBetRecord);
    }
    let winning: u64 = if market.outcome == OUTCOME_YES {
        market.yes_pool
    } else {
        market.no_pool
    };
    if winning == 0 {
        return Err(ErrorCode::NothingToClaim);
    }
    let share: u64 = if market.outcome == OUTCOME_YES {
        record.yes_amount
    } else {
        record.no_amount
    };
    if share == 0 {
        return Err(ErrorCode::NothingToClaim);
    }
    let total: u64 = sat_add(market.yes_pool, market.no_pool);
    proof {
        vstd::arithmetic::mul::lemma_mul_upper_bound(
            share as int,
            u64::MAX as int,
            total as int,
            u64::MAX as int,
        );
    }
    let payout_wide: u128 = (share as u128) * (total as u128) / (winning as u128);
    if payout_wide == 0 {
        return Err(ErrorCode::NothingToClaim);
    }
    let available: u64 = sat_sub(market_balance, reserved_floor);
    if payout_wide > available as u128 {
        return Err(ErrorCode::InsufficientPool);
    }
    record.claimed = true;
    Ok(payout_wide as u64)
}

} // verus!
