use vstd::prelude::*;

use vstd::arithmetic::div_mod::{
    lemma_fundamental_div_mod, lemma_mod_division_less_than_divisor, lemma_multiply_divide_le,
};
use vstd::arithmetic::mul::{
    lemma_mul_inequality, lemma_mul_inequality_converse, lemma_mul_is_commutative,
    lemma_mul_is_distributive_add, lemma_mul_is_distributive_add_other_way, lemma_mul_nonnegative,
};

use crate::bet::{bet_spec, Side};
use crate::claim::{claim_spec, payout_of, winning_pool};
use crate::error::ErrorCode;
use crate::resolve::resolve_spec;
use crate::state::{AccountId, BetRecord, Market, OUTCOME_NO, OUTCOME_YES};

verus! {

// ---------------------------------------------------------------------------
// One-shot resolution and exactly-once claiming
// ---------------------------------------------------------------------------

/// Resolution is one-shot: after a successful resolution, every further
/// resolution of the same market fails with `Resolved`, whatever outcome,
/// resolver and time the later call carries.
pub proof fn lemma_resolve_one_shot(
    m: Market,
    outcome1: u8,
    resolver1: AccountId,
    now1: i64,
    m1: Market,
    outcome2: u8,
    resolver2: AccountId,
    now2: i64,
)
    requires
        resolve_spec(m, outcome1, resolver1, now1) == Ok::<Market, ErrorCode>(m1),
    ensures
        resolve_spec(m1, outcome2, resolver2, now2) == Err::<Market, ErrorCode>(
            ErrorCode::Resolved,
        ),
{
}

/// A claim succeeds at most once: once a claim on a record has succeeded,
/// every further claim on that record of the same market fails with
/// `AlreadyClaimed`, whatever identities and balances the later call carries.
pub proof fn lemma_claim_exactly_once(
    m: Market,
    r: BetRecord,
    bettor1: AccountId,
    market_key1: AccountId,
    balance1: u64,
    floor1: u64,
    r1: BetRecord,
    payout1: u64,
    bettor2: AccountId,
    market_key2: AccountId,
    balance2: u64,
    floor2: u64,
)
    requires
        claim_spec(m, r, bettor1, market_key1, balance1, floor1) == Ok::<
            (BetRecord, u64),
            ErrorCode,
        >((r1, payout1)),
    ensures
        claim_spec(m, r1, bettor2, market_key2, balance2, floor2) == Err::<
            (BetRecord, u64),
            ErrorCode,
        >(ErrorCode::AlreadyClaimed),
{
}

// ---------------------------------------------------------------------------
// Window enforcement and early-resolution gating
// ---------------------------------------------------------------------------

/// Window enforcement: a positive-amount bet on a resolved market fails with
/// `Resolved` regardless of time, and one on an unresolved market at or past
/// its deadline fails with `Ended`. (A zero amount is rejected as
/// `InvalidAmount` before either check.)
pub proof fn lemma_window_enforcement(
    m: Market,
    r: BetRecord,
    side: Side,
    amount: u64,
    bettor: AccountId,
    market_key: AccountId,
    now: i64,
)
    requires
        amount > 0,
    ensures
        m.is_resolved ==> bet_spec(m, r, side, amount, bettor, market_key, now) == Err::<
            (Market, BetRecord),
            ErrorCode,
        >(ErrorCode::Resolved),
        !m.is_resolved && now >= m.end_time ==> bet_spec(m, r, side, amount, bettor, market_key, now)
            == Err::<(Market, BetRecord), ErrorCode>(ErrorCode::Ended),
{
}

/// Early-resolution gating: before the deadline, a resolution of an
/// unresolved market with a valid outcome succeeds exactly when the resolver
/// is the market's creator; any other identity fails with `NotEnded`.
pub proof fn lemma_early_resolution_gating(
    m: Market,
    outcome: u8,
    resolver: AccountId,
    now: i64,
)
    requires
        !m.is_resolved,
        outcome <= OUTCOME_NO,
        now < m.end_time,
    ensures
        resolver == m.creator ==> resolve_spec(m, outcome, resolver, now) == Ok::<
            Market,
            ErrorCode,
        >(Market { outcome, is_resolved: true, ..m }),
        resolver != m.creator ==> resolve_spec(m, outcome, resolver, now) == Err::<
            Market,
            ErrorCode,
        >(ErrorCode::NotEnded),
{
}

// ---------------------------------------------------------------------------
// Proportionality of a single payout
// ---------------------------------------------------------------------------

/// The winning pool never exceeds the combined pool, saturated or not.
pub proof fn lemma_winning_le_total(m: Market)
    ensures
        winning_pool(m) <= m.total_pool(),
{
}

/// No payout exceeds the combined pool: a stake no larger than the winning
/// pool pays out at most `total`.
pub proof fn lemma_payout_bounded(share: u64, total: u64, winning: u64)
    requires
        0 < winning,
        share <= winning,
    ensures
        0 <= payout_of(share, total, winning) <= total,
{
    lemma_mul_nonnegative(share as int, total as int);
    lemma_mul_inequality(share as int, winning as int, total as int);
    lemma_multiply_divide_le(share as int * total as int, winning as int, total as int);
}

/// A positive stake on the winning side always pays out at least itself:
/// the combined pool is at least the winning pool, so
/// `floor(share * total / winning) >= share`.
pub proof fn lemma_payout_at_least_stake(share: u64, total: u64, winning: u64)
    requires
        0 < winning,
        winning <= total,
    ensures
        payout_of(share, total, winning) >= share,
{
    lemma_mul_inequality(winning as int, total as int, share as int);
    lemma_mul_is_commutative(winning as int, share as int);
    lemma_mul_is_commutative(total as int, share as int);
    assert(share as int * winning as int <= share as int * total as int);
    vstd::arithmetic::div_mod::lemma_div_multiples_vanish(share as int, winning as int);
    assert((winning as int * share as int) / winning as int == share as int);
    vstd::arithmetic::div_mod::lemma_div_is_ordered(
        share as int * winning as int,
        share as int * total as int,
        winning as int,
    );
    lemma_mul_is_commutative(share as int, winning as int);
}

// ---------------------------------------------------------------------------
// Conservation over all payouts
// ---------------------------------------------------------------------------

/// The sum of a sequence of stakes.
pub open spec fn sum_u64(s: Seq<u64>) -> int
    decreases s.len(),
{
    if s.len() == 0 {
        0
    } else {
        sum_u64(s.drop_last()) + s.last()
    }
}

/// The sum of the payouts of a sequence of winning stakes.
pub open spec fn sum_payouts(stakes: Seq<u64>, total: u64, winning: u64) -> int
    recommends
        winning > 0,
    decreases stakes.len(),
{
    if stakes.len() == 0 {
        0
    } else {
        sum_payouts(stakes.drop_last(), total, winning) + payout_of(stakes.last(), total, winning)
    }
}

/// The total value lost to rounding over a sequence of winning stakes: each
/// payout rounds `stake * total / winning` down, losing the remainder.
pub open spec fn sum_rounding_loss(stakes: Seq<u64>, total: u64, winning: u64) -> int
    recommends
        winning > 0,
    decreases stakes.len(),
{
    if stakes.len() == 0 {
        0
    } else {
        sum_rounding_loss(stakes.drop_last(), total, winning) + (stakes.last() * total) % (
        winning as int)
    }
}

/// The exact accounting of a claim pass: the payouts scaled back up by the
/// winning pool equal the stakes' share of the combined pool minus what
/// rounding discarded, and rounding never discards a negative amount.
pub proof fn lemma_payout_sum_identity(stakes: Seq<u64>, total: u64, winning: u64)
    requires
        winning > 0,
    ensures
        winning as int * sum_payouts(stakes, total, winning) == sum_u64(stakes) * total
            - sum_rounding_loss(stakes, total, winning),
        0 <= sum_rounding_loss(stakes, total, winning),
    decreases stakes.len(),
{
    if stakes.len() == 0 {
    } else {
        let prefix = stakes.drop_last();
        let a = stakes.last() as int;
        let w = winning as int;
        let t = total as int;
        lemma_payout_sum_identity(prefix, total, winning);
        lemma_fundamental_div_mod(a * t, w);
        lemma_mod_division_less_than_divisor(a * t, w);
        lemma_mul_is_distributive_add(w, sum_payouts(prefix, total, winning), (a * t) / w);
        lemma_mul_is_distributive_add_other_way(t, sum_u64(prefix), a);
    }
}

/// Conservation: for any stakes whose sum does not exceed the winning pool,
/// the payouts of one claim pass together never exceed the combined pool.
pub proof fn lemma_conservation(stakes: Seq<u64>, total: u64, winning: u64)
    requires
        winning > 0,
        winning <= total,
        sum_u64(stakes) <= winning as int,
    ensures
        sum_payouts(stakes, total, winning) <= total as int,
{
    lemma_payout_sum_identity(stakes, total, winning);
    lemma_mul_inequality(sum_u64(stakes), winning as int, total as int);
    lemma_mul_is_commutative(winning as int, total as int);
    lemma_mul_is_commutative(winning as int, sum_payouts(stakes, total, winning));
    lemma_mul_inequality_converse(
        sum_payouts(stakes, total, winning),
        total as int,
        winning as int,
    );
}

/// Conservation is exact when every winner claims, the stakes sum to the
/// whole winning pool, and no payout rounds anything away: the claims then
/// disburse the combined pool to the last unit.
pub proof fn lemma_conservation_exact(stakes: Seq<u64>, total: u64, winning: u64)
    requires
        winning > 0,
        sum_u64(stakes) == winning as int,
        sum_rounding_loss(stakes, total, winning) == 0,
    ensures
        sum_payouts(stakes, total, winning) == total as int,
{
    lemma_payout_sum_identity(stakes, total, winning);
    lemma_mul_is_commutative(sum_u64(stakes), total as int);
    assert(winning as int * sum_payouts(stakes, total, winning) == winning as int * total as int);
    if sum_payouts(stakes, total, winning) < total as int {
        lemma_mul_is_commutative(winning as int, sum_payouts(stakes, total, winning));
        lemma_mul_is_commutative(winning as int, total as int);
        lemma_mul_inequality(sum_payouts(stakes, total, winning) + 1, total as int, winning as int);
        lemma_mul_is_distributive_add_other_way(
            winning as int,
            sum_payouts(stakes, total, winning),
            1,
        );
    }
    if sum_payouts(stakes, total, winning) > total as int {
        lemma_mul_is_commutative(winning as int, sum_payouts(stakes, total, winning));
        lemma_mul_is_commutative(winning as int, total as int);
        lemma_mul_inequality(total as int + 1, sum_payouts(stakes, total, winning), winning as int);
        lemma_mul_is_distributive_add_other_way(winning as int, total as int, 1);
    }
}

// ---------------------------------------------------------------------------
// Pools account for stakes across the whole ledger
// ---------------------------------------------------------------------------

/// A record's cumulative stake on one side.
pub open spec fn side_stake(r: BetRecord, side: Side) -> u64 {
    match side {
        Side::Yes => r.yes_amount,
        Side::No => r.no_amount,
    }
}

/// A market's pool on one side.
pub open spec fn side_pool(m: Market, side: Side) -> u64 {
    match side {
        Side::Yes => m.yes_pool,
        Side::No => m.no_pool,
    }
}

/// The sum of all records' stakes on one side.
pub open spec fn sum_stakes(records: Seq<BetRecord>, side: Side) -> int
    decreases records.len(),
{
    if records.len() == 0 {
        0
    } else {
        sum_stakes(records.drop_last(), side) + side_stake(records.last(), side)
    }
}

/// Each pool equals the sum of the matching stakes over all of the market's
/// records: what proportional payouts divide up is exactly what was staked.
pub open spec fn pools_account_stakes(m: Market, records: Seq<BetRecord>) -> bool {
    &&& m.yes_pool == sum_stakes(records, Side::Yes)
    &&& m.no_pool == sum_stakes(records, Side::No)
}

proof fn lemma_sum_stakes_nonneg(records: Seq<BetRecord>, side: Side)
    ensures
        sum_stakes(records, side) >= 0,
    decreases records.len(),
{
    if records.len() > 0 {
        lemma_sum_stakes_nonneg(records.drop_last(), side);
    }
}

/// One record's stake never exceeds the sum over all records.
pub proof fn lemma_sum_stakes_element(records: Seq<BetRecord>, side: Side, i: int)
    requires
        0 <= i < records.len(),
    ensures
        side_stake(records[i], side) <= sum_stakes(records, side),
    decreases records.len(),
{
    if i == records.len() - 1 {
        lemma_sum_stakes_nonneg(records.drop_last(), side);
    } else {
        lemma_sum_stakes_element(records.drop_last(), side, i);
    }
}

/// Replacing one record changes the sum by the difference of its stakes.
pub proof fn lemma_sum_stakes_update(records: Seq<BetRecord>, side: Side, i: int, r1: BetRecord)
    requires
        0 <= i < records.len(),
    ensures
        sum_stakes(records.update(i, r1), side) == sum_stakes(records, side) - side_stake(
            records[i],
            side,
        ) + side_stake(r1, side),
    decreases records.len(),
{
    let updated = records.update(i, r1);
    if i == records.len() - 1 {
        assert(updated.drop_last() =~= records.drop_last());
    } else {
        assert(updated.drop_last() =~= records.drop_last().update(i, r1));
        lemma_sum_stakes_update(records.drop_last(), side, i, r1);
    }
}

/// A claimed record is terminal: no bet and no claim ever succeeds on it
/// again, so its stakes and its claimed flag never change. An open bet on it
/// is refused as `AlreadyClaimed` and a claim as well.
pub proof fn lemma_claimed_record_is_terminal(
    m: Market,
    r: BetRecord,
    side: Side,
    amount: u64,
    bettor: AccountId,
    market_key: AccountId,
    now: i64,
    balance: u64,
    floor: u64,
)
    requires
        r.claimed,
    ensures
        bet_spec(m, r, side, amount, bettor, market_key, now) is Err,
        amount > 0 && !m.is_resolved && now < m.end_time ==> bet_spec(
            m,
            r,
            side,
            amount,
            bettor,
            market_key,
            now,
        ) == Err::<(Market, BetRecord), ErrorCode>(ErrorCode::AlreadyClaimed),
        claim_spec(m, r, bettor, market_key, balance, floor) is Err,
{
}

/// A successful bet keeps each pool equal to the sum of all records' stakes
/// on that side, as long as the chosen pool's arithmetic does not saturate:
/// the bet adds the same amount to one pool and to the bettor's record, and
/// touches no other record. Two stakes from the same bettor therefore
/// accumulate; neither overwrites the other.
pub proof fn lemma_bet_preserves_accounting(
    m: Market,
    records: Seq<BetRecord>,
    i: int,
    side: Side,
    amount: u64,
    bettor: AccountId,
    market_key: AccountId,
    now: i64,
)
    requires
        pools_account_stakes(m, records),
        0 <= i < records.len(),
        records[i].market.is_zero() ==> records[i].yes_amount == 0 && records[i].no_amount == 0,
        side_pool(m, side) + amount <= u64::MAX,
    ensures
        bet_spec(m, records[i], side, amount, bettor, market_key, now) matches Ok((m1, r1))
            ==> pools_account_stakes(m1, records.update(i, r1)),
{
    let result = bet_spec(m, records[i], side, amount, bettor, market_key, now);
    match result {
        Ok((m1, r1)) => {
            lemma_sum_stakes_element(records, side, i);
            lemma_sum_stakes_update(records, Side::Yes, i, r1);
            lemma_sum_stakes_update(records, Side::No, i, r1);
        },
        Err(_) => {},
    }
}

// ---------------------------------------------------------------------------
// Accounting survives any sequence of bets
// ---------------------------------------------------------------------------

/// One bet request against a ledger of records: which record it is for, the
/// side and amount staked, and the identities and time the call carries.
pub struct BetOp {
    pub index: usize,
    pub side: Side,
    pub amount: u64,
    pub bettor: AccountId,
    pub market_key: AccountId,
    pub now: i64,
}

/// The ledger after a sequence of bet requests, applied in order: an
/// accepted bet replaces the market and its record, a refused one changes
/// nothing, exactly as `place_bet` behaves on an error.
pub open spec fn apply_bets(m: Market, records: Seq<BetRecord>, ops: Seq<BetOp>) -> (
    Market,
    Seq<BetRecord>,
)
    decreases ops.len(),
{
    if ops.len() == 0 {
        (m, records)
    } else {
        let (m1, rs1) = apply_bets(m, records, ops.drop_last());
        let op = ops.last();
        if op.index < rs1.len() {
            match bet_spec(m1, rs1[op.index as int], op.side, op.amount, op.bettor, op.market_key, op.now) {
                Ok((m2, r2)) => (m2, rs1.update(op.index as int, r2)),
                Err(_) => (m1, rs1),
            }
        } else {
            (m1, rs1)
        }
    }
}

/// The total value a sequence of bet requests could move into the pools.
pub open spec fn sum_amounts(ops: Seq<BetOp>) -> int
    decreases ops.len(),
{
    if ops.len() == 0 {
        0
    } else {
        sum_amounts(ops.drop_last()) + ops.last().amount
    }
}

/// Every record that is still fresh (all-zero market identity) carries no
/// stake: the host zeroes a record when it allocates it, and the first
/// accepted bet keys it before staking.
pub open spec fn records_wf(records: Seq<BetRecord>) -> bool {
    forall|j: int|
        0 <= j < records.len() ==> ((#[trigger] records[j]).market.is_zero()
            ==> records[j].yes_amount == 0 && records[j].no_amount == 0)
}

/// Every request points at a record of the ledger and carries a real
/// (nonzero) market identity.
pub open spec fn ops_wf(ops: Seq<BetOp>, n_records: int) -> bool {
    forall|k: int|
        0 <= k < ops.len() ==> (#[trigger] ops[k]).index < n_records
            && !ops[k].market_key.is_zero()
}

proof fn lemma_sum_amounts_nonneg(ops: Seq<BetOp>)
    ensures
        sum_amounts(ops) >= 0,
    decreases ops.len(),
{
    if ops.len() > 0 {
        lemma_sum_amounts_nonneg(ops.drop_last());
    }
}

/// Any sequence of bets keeps each pool equal to the sum of the records'
/// stakes on that side, as long as the whole inflow fits the pools' 64-bit
/// arithmetic; the pools grow by at most that inflow.
pub proof fn lemma_bets_preserve_accounting(m: Market, records: Seq<BetRecord>, ops: Seq<BetOp>)
    requires
        pools_account_stakes(m, records),
        records_wf(records),
        ops_wf(ops, records.len() as int),
        m.yes_pool + m.no_pool + sum_amounts(ops) <= u64::MAX,
    ensures
        ({
            let (m1, rs1) = apply_bets(m, records, ops);
            &&& pools_account_stakes(m1, rs1)
            &&& records_wf(rs1)
            &&& rs1.len() == records.len()
            &&& m1.yes_pool + m1.no_pool <= m.yes_pool + m.no_pool + sum_amounts(ops)
        }),
    decreases ops.len(),
{
    if ops.len() > 0 {
        let prefix = ops.drop_last();
        let op = ops.last();
        assert(ops_wf(prefix, records.len() as int)) by {
            assert(forall|k: int| 0 <= k < prefix.len() ==> prefix[k] == ops[k]);
        }
        lemma_sum_amounts_nonneg(prefix);
        lemma_bets_preserve_accounting(m, records, prefix);
        let (m1, rs1) = apply_bets(m, records, prefix);
        let i = op.index as int;
        assert(op == ops[ops.len() - 1]);
        match bet_spec(m1, rs1[i], op.side, op.amount, op.bettor, op.market_key, op.now) {
            Ok((m2, r2)) => {
                lemma_bet_preserves_accounting(
                    m1,
                    rs1,
                    i,
                    op.side,
                    op.amount,
                    op.bettor,
                    op.market_key,
                    op.now,
                );
                assert(records_wf(rs1.update(i, r2))) by {
                    assert(!r2.market.is_zero());
                    assert(forall|j: int|
                        0 <= j < rs1.len() && j != i ==> rs1.update(i, r2)[j] == rs1[j]);
                }
            },
            Err(_) => {},
        }
    }
}

// ---------------------------------------------------------------------------
// Conservation at the ledger level
// ---------------------------------------------------------------------------

/// The side a market's outcome pays.
pub open spec fn winning_side(m: Market) -> Side {
    if m.outcome == OUTCOME_YES {
        Side::Yes
    } else {
        Side::No
    }
}

/// Every record's stake on the market's winning side, in record order.
pub open spec fn winning_stakes_of(records: Seq<BetRecord>, m: Market) -> Seq<u64> {
    records.map_values(|r: BetRecord| side_stake(r, winning_side(m)))
}

proof fn lemma_sum_u64_of_stakes(records: Seq<BetRecord>, side: Side)
    ensures
        sum_u64(records.map_values(|r: BetRecord| side_stake(r, side))) == sum_stakes(
            records,
            side,
        ),
    decreases records.len(),
{
    let mapped = records.map_values(|r: BetRecord| side_stake(r, side));
    if records.len() > 0 {
        lemma_sum_u64_of_stakes(records.drop_last(), side);
        assert(mapped.drop_last() =~= records.drop_last().map_values(
            |r: BetRecord| side_stake(r, side),
        ));
        assert(mapped.last() == side_stake(records.last(), side));
    }
}

/// Conservation over the whole ledger: whenever the pools account for the
/// records' stakes and someone staked on the winning side, one claim pass
/// over every record pays out at most the combined pool.
pub proof fn lemma_ledger_conservation(m: Market, records: Seq<BetRecord>)
    requires
        winning_pool(m) > 0,
        pools_account_stakes(m, records),
    ensures
        sum_payouts(winning_stakes_of(records, m), m.total_pool(), winning_pool(m))
            <= m.total_pool() as int,
{
    lemma_sum_u64_of_stakes(records, winning_side(m));
    lemma_winning_le_total(m);
    lemma_conservation(winning_stakes_of(records, m), m.total_pool(), winning_pool(m));
}

/// The whole lifecycle conserves value: take any ledger whose pools account
/// for its records, let any sequence of bets run, resolve the market, and
/// let every record claim once: the payouts together never exceed the
/// combined pool standing at resolution.
pub proof fn lemma_lifecycle_conservation(
    m: Market,
    records: Seq<BetRecord>,
    ops: Seq<BetOp>,
    outcome: u8,
    resolver: AccountId,
    now: i64,
)
    requires
        pools_account_stakes(m, records),
        records_wf(records),
        ops_wf(ops, records.len() as int),
        m.yes_pool + m.no_pool + sum_amounts(ops) <= u64::MAX,
    ensures
        ({
            let (m1, rs1) = apply_bets(m, records, ops);
            match resolve_spec(m1, outcome, resolver, now) {
                Ok(m2) => winning_pool(m2) > 0 ==> sum_payouts(
                    winning_stakes_of(rs1, m2),
                    m2.total_pool(),
                    winning_pool(m2),
                ) <= m2.total_pool() as int,
                Err(_) => true,
            }
        }),
{
    lemma_bets_preserve_accounting(m, records, ops);
    let (m1, rs1) = apply_bets(m, records, ops);
    match resolve_spec(m1, outcome, resolver, now) {
        Ok(m2) => {
            if winning_pool(m2) > 0 {
                lemma_ledger_conservation(m2, rs1);
            }
        },
        Err(_) => {},
    }
}

} // verus!
