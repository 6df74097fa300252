use vstd::prelude::*;

use crate::error::ErrorCode;
use crate::state::{AccountId, Market, OUTCOME_NO};

verus! {

/// What resolving a market returns: the market fixed on the chosen outcome,
/// or the error the call aborts with.
///
/// A resolved market never resolves again; an outcome other than yes or no
/// is rejected; and before the deadline only the creator may resolve, while
/// after it any principal may.
pub open spec fn resolve_spec(
    m: Market,
    outcome: u8,
    resolver: AccountId,
    now: i64,
) -> Result<Market, ErrorCode> {
    if m.is_resolved {
        Err(ErrorCode::Resolved)
    } else if outcome > OUTCOME_NO {
        Err(ErrorCode::InvalidOutcome)
    } else if now < m.end_time && resolver != m.creator {
        Err(ErrorCode::NotEnded)
    } else {
        Ok(Market { outcome, is_resolved: true, ..m })
    }
}

/// Performs the single irreversible transition from unresolved to resolved.
///
/// On success the market's outcome is fixed and `is_resolved` is set; the
/// pools, question, creator and deadline are untouched. On any error the
/// market is unchanged.
pub fn resolve_handler(market: &mut Market, outcome: u8, resolver: AccountId, now: i64) -> (r:
    Result<(), ErrorCode>)
    ensures
        match resolve_spec(*old(market), outcome, resolver, now) {
            Ok(m1) => r == Ok::<(), ErrorCode>(()) && *final(market) == m1,
            Err(e) => r == Err::<(), ErrorCode>(e) && *final(market) == *old(market),
        },
        old(market).wf() && r is Ok ==> final(market).wf(),
{
    if market.is_resolved {
        return Err(ErrorCode::Resolved);
    }
    if outcome > OUTCOME_NO {
        return Err(ErrorCode::InvalidOutcome);
    }
    if now < market.end_time && !(resolver == market.creator) {
        return Err(ErrorCode::NotEnded);
    }
    market.outcome = outcome;
    market.is_resolved = true;
    Ok(())
}

} // verus!
