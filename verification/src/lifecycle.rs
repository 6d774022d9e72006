//! Market lifecycle: create, close, resolve.
//!
//! Only the market's authority may close or resolve it, and resolution is
//! irreversible. Each operation either succeeds with exactly the transition
//! its contract states, or fails with the first applicable error and leaves
//! the market untouched.

use vstd::prelude::*;

use crate::error::DakeError;
use crate::state::{Market, MarketStatus, same_identity, same_pools, MAX_QUESTION_LEN};

verus! {

/// Seed liquidity placed on each side of a fresh market, in native currency
/// units. The creator funds both sides equally, so every market opens with
/// defined two-to-one odds and a winning pool that is never empty.
pub const DEFAULT_INITIAL_LIQUIDITY: u64 = 500_000_000;

/// What a freshly created market looks like.
pub open spec fn spec_new_market(
    authority: u64,
    market_id: u64,
    question: Seq<u8>,
    resolution_time: i64,
    m: Market,
) -> bool {
    &&& m.authority == authority
    &&& m.market_id == market_id
    &&& m.question@ == question
    &&& m.resolution_time == resolution_time
    &&& m.status is Open
    &&& m.total_yes_amount == DEFAULT_INITIAL_LIQUIDITY
    &&& m.total_no_amount == DEFAULT_INITIAL_LIQUIDITY
    &&& m.participant_count == 0
}

/// Create a new market.
///
/// The caller becomes the market's authority. Both pool sides are seeded with
/// [`DEFAULT_INITIAL_LIQUIDITY`]; the creator owes the vault the new market's
/// total pool, which the caller transfers alongside this call.
///
/// Fails with `QuestionTooLong` exactly when the question exceeds
/// [`MAX_QUESTION_LEN`] bytes.
pub fn create_market(
    authority: u64,
    market_id: u64,
    question: Vec<u8>,
    resolution_time: i64,
) -> (r: Result<Market, DakeError>)
    ensures
        question@.len() > MAX_QUESTION_LEN ==> r == Err::<Market, DakeError>(
            DakeError::QuestionTooLong,
        ),
        question@.len() <= MAX_QUESTION_LEN ==> (r matches Ok(m) && spec_new_market(
            authority,
            market_id,
            question@,
            resolution_time,
            m,
        )),
{
    if question.len() > MAX_QUESTION_LEN {
        return Err(DakeError::QuestionTooLong);
    }
    Ok(
        Market {
            authority,
            market_id,
            question,
            resolution_time,
            status: MarketStatus::Open,
            total_yes_amount: DEFAULT_INITIAL_LIQUIDITY,
            total_no_amount: DEFAULT_INITIAL_LIQUIDITY,
            participant_count: 0,
        },
    )
}

/// The close transition on a market value: the result of `close_market`, and
/// the market it leaves behind.
pub open spec fn spec_close(m: Market, caller: u64) -> (Result<(), DakeError>, Market) {
    if m.authority != caller {
        (Err(DakeError::Unauthorized), m)
    } else if !m.spec_is_open() {
        (Err(DakeError::MarketNotOpen), m)
    } else {
        (Ok(()), Market { status: MarketStatus::Closed, ..m })
    }
}

/// Close an open market for betting.
///
/// Only the authority may close, and only while the market is open; pools and
/// positions are untouched either way.
pub fn close_market(market: &mut Market, caller: u64) -> (r: Result<(), DakeError>)
    ensures
        (r, *final(market)) == spec_close(*old(market), caller),
        r is Err ==> *final(market) == *old(market),
        same_identity(*old(market), *final(market)),
        same_pools(*old(market), *final(market)),
        r is Ok <==> old(market).authority == caller && old(market).spec_is_open(),
        r is Ok ==> final(market).status is Closed,
{
    if market.authority != caller {
        return Err(DakeError::Unauthorized);
    }
    if !market.is_open() {
        return Err(DakeError::MarketNotOpen);
    }
    market.status = MarketStatus::Closed;
    Ok(())
}

/// The resolve transition on a market value: the result of `resolve_market`,
/// and the market it leaves behind.
pub open spec fn spec_resolve(m: Market, caller: u64, outcome: bool) -> (
    Result<(), DakeError>,
    Market,
) {
    if m.authority != caller {
        (Err(DakeError::Unauthorized), m)
    } else if m.spec_is_resolved() {
        (Err(DakeError::MarketAlreadyResolved), m)
    } else if outcome {
        (Ok(()), Market { status: MarketStatus::ResolvedYes, ..m })
    } else {
        (Ok(()), Market { status: MarketStatus::ResolvedNo, ..m })
    }
}

/// Resolve a market with its outcome: `true` resolves yes, `false` resolves
/// no.
///
/// Only the authority may resolve, from either the open or the closed state,
/// and never twice: a resolved status is terminal. Pools are untouched.
pub fn resolve_market(market: &mut Market, caller: u64, outcome: bool) -> (r: Result<
    (),
    DakeError,
>)
    ensures
        (r, *final(market)) == spec_resolve(*old(market), caller, outcome),
        r is Err ==> *final(market) == *old(market),
        same_identity(*old(market), *final(market)),
        same_pools(*old(market), *final(market)),
        r is Ok <==> old(market).authority == caller && !old(market).spec_is_resolved(),
        r is Ok ==> final(market).status == (if outcome {
            MarketStatus::ResolvedYes
        } else {
            MarketStatus::ResolvedNo
        }),
{
    if market.authority != caller {
        return Err(DakeError::Unauthorized);
    }
    if market.is_resolved() {
        return Err(DakeError::MarketAlreadyResolved);
    }
    market.status = if outcome {
        MarketStatus::ResolvedYes
    } else {
        MarketStatus::ResolvedNo
    };
    Ok(())
}

} // verus!
