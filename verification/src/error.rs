//! Typed failures of the market operations.

use vstd::prelude::*;

verus! {

/// Every way an operation can refuse to act. Each precondition of the
/// lifecycle and settlement operations maps to exactly one of these kinds,
/// and a failed operation leaves all state untouched.
#[derive(Clone, Copy, Debug, PartialEq, Eq, Structural)]
pub enum DakeError {
    /// Betting was attempted on a market that is closed or resolved.
    MarketNotOpen,
    /// An operation that needs a closed market found it still open.
    MarketStillOpen,
    /// Settlement was attempted before the market resolved.
    MarketNotResolved,
    /// Resolution was attempted on an already resolved market.
    MarketAlreadyResolved,
    /// The stake was not greater than zero.
    InvalidBetAmount,
    /// The caller is not the owner of the position.
    NotOwner,
    /// The position's winnings were already claimed.
    AlreadyClaimed,
    /// The position has no winner handle yet; run the winner check first.
    NotChecked,
    /// The decryption proof shows a losing side, or failed to verify.
    NotWinner,
    /// The caller is not the market's authority.
    Unauthorized,
    /// The payout, clamped to the vault balance, came to zero.
    NoFunds,
    /// The pool side flag was neither 0 nor 1.
    InvalidSide,
    /// The market's resolution time has not been reached.
    ResolutionTimeNotReached,
    /// The question text exceeds the bound on its length.
    QuestionTooLong,
}

} // verus!
