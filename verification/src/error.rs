use vstd::prelude::*;

verus! {

/// The failure kinds of the ledger's operations.
///
/// Every operation aborts with one of these before mutating any state; the
/// variants are stable identifiers for clients and are distinguished by kind,
/// not by message text.
#[derive(Clone, Copy, Debug, PartialEq, Eq, Structural)]
pub enum ErrorCode {
    /// The market is already resolved.
    Resolved,
    /// Betting on the market has ended.
    Ended,
    /// The market has not ended yet and the caller is not its creator.
    NotEnded,
    /// The market is not resolved yet.
    NotResolved,
    /// The chosen outcome is neither yes nor no.
    InvalidOutcome,
    /// The question exceeds the maximum byte length.
    QuestionTooLong,
    /// The bet record has already been claimed.
    AlreadyClaimed,
    /// There is no winning stake to claim.
    NothingToClaim,
    /// The bet record does not belong to this market and bettor.
    InvalidBetRecord,
    /// The bet amount must be greater than zero.
    InvalidAmount,
    /// The market escrow cannot cover the payout.
    InsufficientPool,
}

} // verus!
