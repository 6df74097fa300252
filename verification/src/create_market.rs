use vstd::prelude::*;

use crate::error::ErrorCode;
use crate::state::{AccountId, Market, MAX_QUESTION_LEN, OUTCOME_UNRESOLVED};

verus! {

/// What creating a market returns: the initial unresolved market with empty
/// pools, or `QuestionTooLong` when the question exceeds the fixed maximum.
pub open spec fn create_market_spec(
    question: Vec<u8>,
    end_time: i64,
    creator: AccountId,
) -> Result<Market, ErrorCode> {
    if question@.len() > MAX_QUESTION_LEN {
        Err(ErrorCode::QuestionTooLong)
    } else {
        Ok(
            Market {
                question,
                end_time,
                creator,
                yes_pool: 0,
                no_pool: 0,
                is_resolved: false,
                outcome: OUTCOME_UNRESOLVED,
            },
        )
    }
}

/// Creates a market in its initial unresolved state.
///
/// Validates the question length, then initializes both pools to zero, the
/// outcome to unresolved, and records the caller as the creator, who alone
/// may resolve before the deadline. No other state is touched.
pub fn create_market_handler(question: Vec<u8>, end_time: i64, creator: AccountId) -> (r: Result<
    Market,
    ErrorCode,
>)
    ensures
        r == create_market_spec(question, end_time, creator),
        r matches Ok(m) ==> m.wf(),
{
    if question.len() > MAX_QUESTION_LEN {
        return Err(ErrorCode::QuestionTooLong);
    }
    Ok(
        Market {
            question,
            end_time,
            creator,
            yes_pool: 0,
            no_pool: 0,
            is_resolved: false,
            outcome: OUTCOME_UNRESOLVED,
        },
    )
}

} // verus!
