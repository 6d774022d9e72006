//! Settlement: winner check, decrypt-access grant, and claim.
//!
//! Settlement spans three calls. First the winner check: the caller asks the
//! oracle to encrypt the resolved side and compare it with the position's
//! encrypted side, then stores the resulting opaque boolean handle here.
//! Then, optionally, a fresh grant of decrypt permission over that handle.
//! Last the claim: the caller proves to the oracle what the winner handle
//! decrypts to, and hands this crate the verification outcome, the decrypted
//! plaintext and the live vault balance; the claim pays the locked payout,
//! clamped to the vault, and marks the position claimed before the caller
//! moves any funds, so a failed transfer can never retry into a double
//! payout.

use vstd::prelude::*;

use vstd::arithmetic::div_mod::{
    lemma_div_is_ordered_by_denominator,
    lemma_div_multiples_vanish,
    lemma_div_of0,
};
use vstd::arithmetic::mul::{lemma_mul_nonnegative, lemma_mul_upper_bound};

use crate::error::DakeError;
use crate::state::{Market, MarketStatus, Position};

verus! {

/// The plaintext side value of the resolved outcome: 1 when the market
/// resolved yes, 0 when it resolved no.
///
/// Fails with `MarketNotResolved` exactly when the market is not resolved.
/// The caller hands the value to the oracle for encryption and encrypted
/// comparison against a position's side handle.
pub fn winning_side_value(market: &Market) -> (r: Result<u128, DakeError>)
    ensures
        market.status is ResolvedYes ==> r == Ok::<u128, DakeError>(1u128),
        market.status is ResolvedNo ==> r == Ok::<u128, DakeError>(0u128),
        !market.spec_is_resolved() ==> r == Err::<u128, DakeError>(DakeError::MarketNotResolved),
{
    match market.status {
        MarketStatus::ResolvedYes => Ok(1),
        MarketStatus::ResolvedNo => Ok(0),
        _ => Err(DakeError::MarketNotResolved),
    }
}

/// The winner-check transition on a position value: the result of
/// `check_winner`, and the position it leaves behind.
pub open spec fn spec_check_winner(m: Market, p: Position, result_handle: u128) -> (
    Result<(), DakeError>,
    Position,
) {
    if !m.spec_is_resolved() {
        (Err(DakeError::MarketNotResolved), p)
    } else {
        (Ok(()), Position { is_winner_handle: result_handle, ..p })
    }
}

/// Store the oracle's encrypted winner verdict on the position.
///
/// `result_handle` is the opaque handle the oracle returned for the
/// encrypted comparison of the position's side with the resolved side; zero
/// is reserved to mean "unset", so a handle is never zero. Requires a
/// resolved market; re-running the check merely overwrites the handle with
/// the recomputed one. Nothing else on the position changes.
pub fn check_winner(market: &Market, position: &mut Position, result_handle: u128) -> (r: Result<
    (),
    DakeError,
>)
    requires
        result_handle != 0,
    ensures
        (r, *final(position)) == spec_check_winner(*market, *old(position), result_handle),
        r is Err ==> *final(position) == *old(position),
        r is Ok <==> market.spec_is_resolved(),
        r is Ok ==> final(position).is_winner_handle == result_handle,
        final(position).locked_payout == old(position).locked_payout,
        final(position).claimed == old(position).claimed,
        final(position).amount == old(position).amount,
        final(position).encrypted_side_handle == old(position).encrypted_side_handle,
{
    if !market.is_resolved() {
        return Err(DakeError::MarketNotResolved);
    }
    position.is_winner_handle = result_handle;
    Ok(())
}

/// The handle the position's owner may be allowed to decrypt.
///
/// Succeeds exactly for the owner of a position whose winner check has run,
/// and returns the stored winner handle for the caller to pass to the
/// oracle's permission grant; it may be called again to re-issue a grant.
pub fn grant_decrypt_access(position: &Position, caller: u64) -> (r: Result<u128, DakeError>)
    ensures
        position.owner != caller ==> r == Err::<u128, DakeError>(DakeError::NotOwner),
        position.owner == caller && position.is_winner_handle == 0 ==> r == Err::<u128, DakeError>(
            DakeError::NotChecked,
        ),
        position.owner == caller && position.is_winner_handle != 0 ==> r == Ok::<u128, DakeError>(
            position.is_winner_handle,
        ),
{
    if position.owner != caller {
        return Err(DakeError::NotOwner);
    }
    if position.is_winner_handle == 0 {
        return Err(DakeError::NotChecked);
    }
    Ok(position.is_winner_handle)
}

/// The ASCII bytes of the word "false".
pub open spec fn spec_false_literal() -> Seq<u8> {
    seq![102u8, 97u8, 108u8, 115u8, 101u8]
}

/// How a decrypted winner verdict reads as a boolean: a non-empty byte
/// sequence counts as a win unless it is the literal word "false" or every
/// byte is a binary zero or the ASCII digit '0'.
pub open spec fn spec_plaintext_is_winner(p: Seq<u8>) -> bool {
    &&& p.len() > 0
    &&& p != spec_false_literal()
    &&& exists|j: int| 0 <= j < p.len() && p[j] != 0 && p[j] != 48
}

/// Parse a decrypted boolean plaintext.
///
/// Handles both encodings the oracle produces: a little-endian integer,
/// where any non-zero byte means true, and a decimal or boolean string,
/// where "0", a run of '0' digits, and "false" mean false.
pub fn parse_plaintext_to_bool(plaintext: &[u8]) -> (r: bool)
    ensures
        r == spec_plaintext_is_winner(plaintext@),
{
    if plaintext.len() == 0 {
        return false;
    }
    if plaintext.len() == 5 && plaintext[0] == 102 && plaintext[1] == 97 && plaintext[2] == 108
        && plaintext[3] == 115 && plaintext[4] == 101 {
        proof {
            assert(plaintext@ =~= spec_false_literal());
        }
        return false;
    }
    let mut any_nonzero = false;
    let mut i: usize = 0;
    while i < plaintext.len()
        invariant
            i <= plaintext@.len(),
            any_nonzero == exists|j: int| 0 <= j < i && plaintext@[j] != 0 && plaintext@[j] != 48,
        decreases plaintext@.len() - i,
    {
        let b = plaintext[i];
        if b != 0 && b != 48 {
            any_nonzero = true;
        }
        i = i + 1;
    }
    any_nonzero
}

/// The proportional settlement rule: a winner's share of the whole pool,
/// `floor(user_bet * total_pool / winning_pool)`, degenerating to the bet
/// itself when the winning pool is empty.
pub open spec fn spec_proportional_payout(user_bet: u64, winning_pool: u64, total_pool: u64) -> int {
    if winning_pool > 0 {
        (user_bet * total_pool) / (winning_pool as int)
    } else {
        user_bet as int
    }
}

/// Compute the proportional payout in a widened integer domain.
///
/// The multiplication runs in 128 bits, so it cannot overflow; the quotient
/// fits back into 64 bits because a winner's own stake is part of the
/// winning pool, which the precondition records.
pub fn proportional_payout(user_bet: u64, winning_pool: u64, total_pool: u64) -> (r: u64)
    requires
        winning_pool > 0 ==> user_bet <= winning_pool,
    ensures
        r == spec_proportional_payout(user_bet, winning_pool, total_pool),
{
    if winning_pool > 0 {
        proof {
            let b = user_bet as int;
            let w = winning_pool as int;
            let t = total_pool as int;
            lemma_mul_nonnegative(b, t);
            lemma_mul_upper_bound(b, u64::MAX as int, t, u64::MAX as int);
            if b == 0 {
                lemma_div_of0(w);
            } else {
                lemma_div_is_ordered_by_denominator(b * t, b, w);
                lemma_div_multiples_vanish(t, b);
            }
        }
        let prod: u128 = (user_bet as u128) * (total_pool as u128);
        let q: u128 = prod / (winning_pool as u128);
        q as u64
    } else {
        user_bet
    }
}

/// The claim transition on a position value: the result of `claim_winnings`,
/// and the position it leaves behind.
pub open spec fn spec_claim(
    m: Market,
    p: Position,
    caller: u64,
    proof_ok: bool,
    plaintext: Seq<u8>,
    vault_balance: u64,
) -> (Result<u64, DakeError>, Position) {
    if p.owner != caller {
        (Err(DakeError::NotOwner), p)
    } else if p.is_winner_handle == 0 {
        (Err(DakeError::NotChecked), p)
    } else if p.claimed {
        (Err(DakeError::AlreadyClaimed), p)
    } else if !m.spec_is_resolved() {
        (Err(DakeError::MarketNotResolved), p)
    } else if !proof_ok || !spec_plaintext_is_winner(plaintext) {
        (Err(DakeError::NotWinner), p)
    } else {
        let pay = if p.locked_payout <= vault_balance {
            p.locked_payout
        } else {
            vault_balance
        };
        if pay == 0 {
            (Err(DakeError::NoFunds), p)
        } else {
            (Ok(pay), Position { claimed: true, ..p })
        }
    }
}

/// Claim the winnings of a position.
///
/// Before this call the caller asks the oracle to verify that `plaintext` is
/// the authentic decryption of the position's winner handle; `proof_ok` is
/// that verification's outcome, and the contract promises a payout only where
/// it is true. `vault_balance` is the vault's live balance, re-read for this
/// claim, and the payout never exceeds it.
///
/// Succeeds exactly when the caller owns the position, its winner check has
/// run, it is unclaimed, the market is resolved, the verified plaintext
/// reads as a win, and the locked payout clamped to the vault balance is
/// positive. It then marks the position claimed and returns the clamped
/// payout, which the caller transfers out of the vault; the mark and the
/// transfer commit or fail as one atomic operation at the ledger. Any
/// failure leaves the position untouched.
pub fn claim_winnings(
    market: &Market,
    position: &mut Position,
    caller: u64,
    proof_ok: bool,
    plaintext: &[u8],
    vault_balance: u64,
) -> (r: Result<u64, DakeError>)
    ensures
        (r, *final(position)) == spec_claim(
            *market,
            *old(position),
            caller,
            proof_ok,
            plaintext@,
            vault_balance,
        ),
        r is Err ==> *final(position) == *old(position),
        r matches Ok(pay) ==> pay > 0 && pay <= vault_balance && pay
            <= old(position).locked_payout,
        r is Ok ==> !old(position).claimed && final(position).claimed,
        r is Ok ==> *final(position) == (Position { claimed: true, ..*old(position) }),
        final(position).locked_payout == old(position).locked_payout,
{
    if position.owner != caller {
        return Err(DakeError::NotOwner);
    }
    if position.is_winner_handle == 0 {
        return Err(DakeError::NotChecked);
    }
    if position.claimed {
        return Err(DakeError::AlreadyClaimed);
    }
    if !market.is_resolved() {
        return Err(DakeError::MarketNotResolved);
    }
    if !proof_ok {
        return Err(DakeError::NotWinner);
    }
    if !parse_plaintext_to_bool(plaintext) {
        return Err(DakeError::NotWinner);
    }
    let actual_payout: u64 = if position.locked_payout <= vault_balance {
        position.locked_payout
    } else {
        vault_balance
    };
    if actual_payout == 0 {
        return Err(DakeError::NoFunds);
    }
    position.claimed = true;
    Ok(actual_payout)
}

} // verus!
