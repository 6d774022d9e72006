//! Market and position state.
//!
//! Accounts of the ledger are modeled by their plain contents: identities are
//! the 64-bit keys under which the ledger knows them, and encrypted values are
//! opaque 128-bit handles issued by the confidential-compute oracle. A handle
//! value of zero is reserved to mean "unset".

use vstd::prelude::*;

verus! {

/// Upper bound on the byte length of a market's question text.
pub const MAX_QUESTION_LEN: usize = 256;

/// Where a market stands in its lifecycle.
///
/// The only transitions are `Open -> Closed`, `Open -> ResolvedYes`,
/// `Open -> ResolvedNo`, `Closed -> ResolvedYes` and `Closed -> ResolvedNo`.
/// The two resolved states are terminal.
#[derive(Clone, Copy, Debug, PartialEq, Eq, Structural)]
pub enum MarketStatus {
    /// Accepting bets.
    Open,
    /// No more bets; awaiting resolution.
    Closed,
    /// Resolved with the affirmative outcome.
    ResolvedYes,
    /// Resolved with the negative outcome.
    ResolvedNo,
}

impl Default for MarketStatus {
    /// A fresh market is open.
    fn default() -> (s: Self)
        ensures
            s == MarketStatus::Open,
    {
        MarketStatus::Open
    }
}

/// One yes/no prediction question with its aggregated betting pool.
///
/// The two pool totals and the participant count are the only fields that
/// change after creation, and they change only while the market is open;
/// `status` moves only along the lifecycle transitions.
#[derive(Clone, Debug)]
pub struct Market {
    /// Identity permitted to close and resolve the market. Immutable.
    pub authority: u64,
    /// Unique identifier, part of the account's derivation seed. Immutable.
    pub market_id: u64,
    /// The question text, at most [`MAX_QUESTION_LEN`] bytes. Immutable.
    pub question: Vec<u8>,
    /// Advisory timestamp for resolution; stored, not enforced. Immutable.
    pub resolution_time: i64,
    /// Where the market stands in its lifecycle.
    pub status: MarketStatus,
    /// Total staked on the affirmative side, in native currency units.
    pub total_yes_amount: u64,
    /// Total staked on the negative side, in native currency units.
    pub total_no_amount: u64,
    /// Number of bets placed.
    pub participant_count: u32,
}

impl Market {
    /// The market still accepts bets.
    pub open spec fn spec_is_open(self) -> bool {
        self.status is Open
    }

    /// The market has reached one of its two terminal states.
    pub open spec fn spec_is_resolved(self) -> bool {
        self.status is ResolvedYes || self.status is ResolvedNo
    }

    /// Both pool totals together, saturating at the largest representable
    /// amount.
    pub open spec fn spec_total_pool(self) -> u64 {
        self.total_yes_amount.saturating_add(self.total_no_amount)
    }

    pub fn is_open(&self) -> (r: bool)
        ensures
            r == self.spec_is_open(),
    {
        self.status == MarketStatus::Open
    }

    pub fn is_resolved(&self) -> (r: bool)
        ensures
            r == self.spec_is_resolved(),
    {
        self.status == MarketStatus::ResolvedYes || self.status == MarketStatus::ResolvedNo
    }

    pub fn total_pool(&self) -> (r: u64)
        ensures
            r == self.spec_total_pool(),
    {
        self.total_yes_amount.saturating_add(self.total_no_amount)
    }
}

/// The fields of a market that no operation after creation may change.
pub open spec fn same_identity(a: Market, b: Market) -> bool {
    &&& a.authority == b.authority
    &&& a.market_id == b.market_id
    &&& a.question == b.question
    &&& a.resolution_time == b.resolution_time
}

/// The pool totals and the participant count agree.
pub open spec fn same_pools(a: Market, b: Market) -> bool {
    &&& a.total_yes_amount == b.total_yes_amount
    &&& a.total_no_amount == b.total_no_amount
    &&& a.participant_count == b.participant_count
}

/// One participant's stake in one market.
///
/// The side of the bet lives only behind `encrypted_side_handle`; the payout
/// was locked when the bet was placed and is never recomputed. After a claim
/// the position persists as an immutable settlement record.
#[derive(Clone, Copy, Debug, PartialEq, Eq, Structural)]
pub struct Position {
    /// Identifier of the owning market. Immutable.
    pub market: u64,
    /// Identity of the bettor. Immutable.
    pub owner: u64,
    /// Stake in native currency units, greater than zero. Immutable.
    pub amount: u64,
    /// Payout fixed from the pool state immediately after the bet;
    /// later bets never change it.
    pub locked_payout: u64,
    /// Opaque handle to the encrypted chosen side (1 = yes, 0 = no).
    /// Set once at bet time, never mutated.
    pub encrypted_side_handle: u128,
    /// Opaque handle to the encrypted result of comparing the chosen side
    /// with the resolved outcome. Zero until the winner check stores it.
    pub is_winner_handle: u128,
    /// Whether the winnings were paid out. Set true at most once.
    pub claimed: bool,
}

} // verus!
