//! Bet placement with pool accounting and odds locking.
//!
//! A bet moves the stake into the vault (the caller performs that transfer),
//! adds it to the chosen side's pool total by saturating addition, and locks
//! the payout from the pool state immediately after the bet: later bets
//! change the pool but never any payout already locked. The encrypted side
//! handle comes from the confidential-compute oracle; the plaintext
//! `side_for_pool` flag used for bookkeeping is trusted to match it, a stated
//! limitation of the design rather than something this crate checks.

use vstd::prelude::*;

use vstd::arithmetic::div_mod::{
    lemma_div_is_ordered_by_denominator,
    lemma_div_multiples_vanish,
    lemma_div_of0,
};
use vstd::arithmetic::mul::{lemma_mul_nonnegative, lemma_mul_upper_bound};

use crate::error::DakeError;
use crate::state::{same_identity, Market, Position};

verus! {

/// The payout locked for a stake of `amount`, given the chosen side's pool
/// and the whole pool as they stand immediately after the bet:
/// `floor(amount * total / side)`, or the stake itself in the degenerate case
/// of an empty side pool.
pub open spec fn spec_locked_payout(amount: u64, side_pool_after: u64, total_pool_after: u64) -> int {
    if side_pool_after > 0 {
        (amount * total_pool_after) / (side_pool_after as int)
    } else {
        amount as int
    }
}

/// Compute the locked payout in a widened integer domain.
///
/// The multiplication runs in 128 bits, so it cannot overflow; the quotient
/// fits back into 64 bits because the stake never exceeds its own side's
/// pool, which the precondition records.
pub fn locked_payout_amount(amount: u64, side_pool_after: u64, total_pool_after: u64) -> (r: u64)
    requires
        amount <= side_pool_after,
    ensures
        r == spec_locked_payout(amount, side_pool_after, total_pool_after),
{
    if side_pool_after > 0 {
        proof {
            let a = amount as int;
            let s = side_pool_after as int;
            let t = total_pool_after as int;
            lemma_mul_nonnegative(a, t);
            lemma_mul_upper_bound(a, u64::MAX as int, t, u64::MAX as int);
            if a == 0 {
                lemma_div_of0(s);
            } else {
                lemma_div_is_ordered_by_denominator(a * t, a, s);
                lemma_div_multiples_vanish(t, a);
            }
        }
        let prod: u128 = (amount as u128) * (total_pool_after as u128);
        let q: u128 = prod / (side_pool_after as u128);
        q as u64
    } else {
        amount
    }
}

/// The pool bookkeeping of one accepted bet: the chosen side's total grows by
/// the stake and the participant count by one, both saturating; everything
/// else is untouched.
pub open spec fn spec_bet_market(m: Market, side_for_pool: u8, amount: u64) -> Market {
    Market {
        total_yes_amount: if side_for_pool == 1 {
            m.total_yes_amount.saturating_add(amount)
        } else {
            m.total_yes_amount
        },
        total_no_amount: if side_for_pool == 1 {
            m.total_no_amount
        } else {
            m.total_no_amount.saturating_add(amount)
        },
        participant_count: m.participant_count.saturating_add(1),
        ..m
    }
}

/// The chosen side's pool total in `m`.
pub open spec fn spec_side_pool(m: Market, side_for_pool: u8) -> u64 {
    if side_for_pool == 1 {
        m.total_yes_amount
    } else {
        m.total_no_amount
    }
}

/// The position an accepted bet creates, given the market as it stands
/// immediately after the bet's pool bookkeeping.
pub open spec fn spec_new_position(
    m_after: Market,
    bettor: u64,
    side_handle: u128,
    amount: u64,
    side_for_pool: u8,
) -> Position {
    Position {
        market: m_after.market_id,
        owner: bettor,
        amount,
        locked_payout: spec_locked_payout(
            amount,
            spec_side_pool(m_after, side_for_pool),
            m_after.spec_total_pool(),
        ) as u64,
        encrypted_side_handle: side_handle,
        is_winner_handle: 0,
        claimed: false,
    }
}

/// The bet transition on a market value: the result of `place_bet`, and the
/// market it leaves behind.
pub open spec fn spec_place_bet(
    m: Market,
    bettor: u64,
    side_handle: u128,
    amount: u64,
    side_for_pool: u8,
) -> (Result<Position, DakeError>, Market) {
    if !m.spec_is_open() {
        (Err(DakeError::MarketNotOpen), m)
    } else if amount == 0 {
        (Err(DakeError::InvalidBetAmount), m)
    } else if side_for_pool > 1 {
        (Err(DakeError::InvalidSide), m)
    } else {
        let m_after = spec_bet_market(m, side_for_pool, amount);
        (
            Ok(spec_new_position(m_after, bettor, side_handle, amount, side_for_pool)),
            m_after,
        )
    }
}

/// Place a bet of `amount` units on `side_for_pool` (1 = yes, 0 = no).
///
/// `side_handle` is the oracle's opaque handle to the encrypted side, created
/// by the caller before this call; the caller also transfers the stake into
/// the vault alongside a successful bet.
///
/// Succeeds exactly when the market is open, the stake is positive and the
/// side flag is 0 or 1; it then updates the pools as [`spec_bet_market`]
/// states and returns the new position with its payout locked from the pool
/// state immediately after the bet. Any failure leaves the market untouched.
pub fn place_bet(
    market: &mut Market,
    bettor: u64,
    side_handle: u128,
    amount: u64,
    side_for_pool: u8,
) -> (r: Result<Position, DakeError>)
    ensures
        (r, *final(market)) == spec_place_bet(*old(market), bettor, side_handle, amount, side_for_pool),
        r is Err ==> *final(market) == *old(market),
        same_identity(*old(market), *final(market)),
        final(market).status == old(market).status,
        r is Ok <==> old(market).spec_is_open() && amount > 0 && side_for_pool <= 1,
        r matches Ok(p) ==> p.amount == amount && p.owner == bettor && !p.claimed
            && p.encrypted_side_handle == side_handle && p.is_winner_handle == 0
            && p.locked_payout == spec_locked_payout(
            amount,
            spec_side_pool(*final(market), side_for_pool),
            final(market).spec_total_pool(),
        ),
{
    if !market.is_open() {
        return Err(DakeError::MarketNotOpen);
    }
    if amount == 0 {
        return Err(DakeError::InvalidBetAmount);
    }
    if side_for_pool > 1 {
        return Err(DakeError::InvalidSide);
    }

    if side_for_pool == 1 {
        market.total_yes_amount = market.total_yes_amount.saturating_add(amount);
    } else {
        market.total_no_amount = market.total_no_amount.saturating_add(amount);
    }
    market.participant_count = market.participant_count.saturating_add(1);

    let side_pool_after: u64 = if side_for_pool == 1 {
        market.total_yes_amount
    } else {
        market.total_no_amount
    };
    let total_pool_after: u64 = market.total_pool();
    let locked_payout: u64 = locked_payout_amount(amount, side_pool_after, total_pool_after);

    Ok(
        Position {
            market: market.market_id,
            owner: bettor,
            amount,
            locked_payout,
            encrypted_side_handle: side_handle,
            is_winner_handle: 0,
            claimed: false,
        },
    )
}

} // verus!
