use vstd::prelude::*;

verus! {

/// Maximum byte length of a market's question, enforced at creation.
pub const MAX_QUESTION_LEN: usize = 200;

/// Outcome value of a market resolved in favour of the yes side.
pub const OUTCOME_YES: u8 = 0;

/// Outcome value of a market resolved in favour of the no side.
pub const OUTCOME_NO: u8 = 1;

/// Outcome value of a market that has not been resolved.
pub const OUTCOME_UNRESOLVED: u8 = 2;

/// A 32-byte principal or account identity, held as four 64-bit words.
///
/// The ledger only ever compares identities for equality; the host assigns
/// them and proves ownership before an operation runs.
#[derive(Clone, Copy, Debug, PartialEq, Eq, Structural)]
pub struct AccountId {
    pub w0: u64,
    pub w1: u64,
    pub w2: u64,
    pub w3: u64,
}

impl AccountId {
    /// The all-zero identity.
    pub open spec fn zero_id() -> AccountId {
        AccountId { w0: 0, w1: 0, w2: 0, w3: 0 }
    }

    /// Whether this is the all-zero identity, which a freshly allocated bet
    /// record carries until its first stake fills the key fields in.
    pub open spec fn is_zero(self) -> bool {
        self == AccountId::zero_id()
    }

    /// Returns the all-zero identity.
    pub fn zero() -> (r: AccountId)
        ensures
            r == AccountId::zero_id(),
    {
        AccountId { w0: 0, w1: 0, w2: 0, w3: 0 }
    }

    /// Whether this identity is the all-zero one.
    pub fn eq_zero(&self) -> (r: bool)
        ensures
            r == self.is_zero(),
    {
        self.w0 == 0 && self.w1 == 0 && self.w2 == 0 && self.w3 == 0
    }
}

/// One market: a yes/no question with two escrowed pools.
#[derive(Debug, Clone, PartialEq)]
pub struct Market {
    /// The question being wagered on, at most [`MAX_QUESTION_LEN`] bytes.
    pub question: Vec<u8>,
    /// Absolute deadline after which betting closes and resolution becomes
    /// permissionless.
    pub end_time: i64,
    /// The principal who created the market; holds a privileged
    /// early-resolution right.
    pub creator: AccountId,
    /// Total value staked on the yes side.
    pub yes_pool: u64,
    /// Total value staked on the no side.
    pub no_pool: u64,
    /// False until resolution; irreversible once true.
    pub is_resolved: bool,
    /// [`OUTCOME_YES`] or [`OUTCOME_NO`] once resolved,
    /// [`OUTCOME_UNRESOLVED`] before.
    pub outcome: u8,
}

impl Market {
    /// Well-formedness: the question fits the fixed maximum, and the outcome
    /// is a chosen side exactly when the market is resolved.
    pub open spec fn wf(self) -> bool {
        &&& self.question@.len() <= MAX_QUESTION_LEN
        &&& if self.is_resolved {
            self.outcome == OUTCOME_YES || self.outcome == OUTCOME_NO
        } else {
            self.outcome == OUTCOME_UNRESOLVED
        }
    }

    /// The combined value of both pools, clamped at the numeric maximum the
    /// same way the pools themselves accumulate.
    pub open spec fn total_pool(self) -> u64 {
        sat_add_spec(self.yes_pool, self.no_pool)
    }
}

/// One bettor's cumulative ledger of stakes in one market.
#[derive(Debug, Clone, Copy, PartialEq, Eq, Structural)]
pub struct BetRecord {
    /// Identity of the market this record belongs to; all-zero until the
    /// first stake fills it in.
    pub market: AccountId,
    /// Identity of the bettor this record belongs to.
    pub bettor: AccountId,
    /// Cumulative stake on the yes side, pre-claim.
    pub yes_amount: u64,
    /// Cumulative stake on the no side, pre-claim.
    pub no_amount: u64,
    /// False until the payout is disbursed; irreversible once true.
    pub claimed: bool,
}

impl BetRecord {
    /// A record as the host hands it out before any stake: every field zero.
    pub open spec fn fresh_spec() -> BetRecord {
        BetRecord {
            market: AccountId::zero_id(),
            bettor: AccountId::zero_id(),
            yes_amount: 0,
            no_amount: 0,
            claimed: false,
        }
    }

    /// Returns a record with every field zero, as the host allocates them.
    pub fn fresh() -> (r: BetRecord)
        ensures
            r == BetRecord::fresh_spec(),
    {
        BetRecord {
            market: AccountId::zero(),
            bettor: AccountId::zero(),
            yes_amount: 0,
            no_amount: 0,
            claimed: false,
        }
    }
}

/// A record's stakes never exceed the pools of the market they were staked
/// into: each bet adds the same amount to both sides of the inequality.
pub open spec fn stakes_within_pools(m: Market, r: BetRecord) -> bool {
    &&& r.yes_amount <= m.yes_pool
    &&& r.no_amount <= m.no_pool
}

/// Addition on 64-bit totals that clamps at the numeric maximum instead of
/// overflowing: the ledger's documented precision-loss tradeoff at extreme
/// totals.
pub open spec fn sat_add_spec(a: u64, b: u64) -> u64 {
    if a + b > u64::MAX {
        u64::MAX
    } else {
        (a + b) as u64
    }
}

/// Saturating addition on 64-bit totals.
pub fn sat_add(a: u64, b: u64) -> (r: u64)
    ensures
        r == sat_add_spec(a, b),
{
    if a > u64::MAX - b {
        u64::MAX
    } else {
        a + b
    }
}

/// What remains of a balance above a reserved floor; zero when the balance
/// is already at or below the floor.
pub open spec fn sat_sub_spec(a: u64, b: u64) -> u64 {
    if a >= b {
        (a - b) as u64
    } else {
        0
    }
}

/// Saturating subtraction on 64-bit balances.
pub fn sat_sub(a: u64, b: u64) -> (r: u64)
    ensures
        r == sat_sub_spec(a, b),
{
    if a >= b {
        a - b
    } else {
        0
    }
}

} // verus!
