//! The guarantees that hold across whole histories of a market, proved once
//! over the transition functions that the operations' contracts are stated
//! with: pool conservation, vault solvency, odds immutability, the
//! single-claim rule, and resolution monotonicity.

use vstd::prelude::*;

use crate::bet::spec_place_bet;
use crate::error::DakeError;
use crate::lifecycle::{spec_close, spec_resolve};
use crate::settle::{spec_check_winner, spec_claim};
use crate::state::{same_identity, Market, Position};

verus! {

/// One bet request against a market.
pub struct Bet {
    pub bettor: u64,
    pub side_handle: u128,
    pub amount: u64,
    pub side_for_pool: u8,
}

/// A sequence of bet requests run left to right: the market they leave
/// behind, and the positions the accepted ones created, in order.
pub open spec fn spec_run_bets(m: Market, bets: Seq<Bet>) -> (Market, Seq<Position>)
    decreases bets.len(),
{
    if bets.len() == 0 {
        (m, Seq::<Position>::empty())
    } else {
        let b = bets[0];
        let step = spec_place_bet(m, b.bettor, b.side_handle, b.amount, b.side_for_pool);
        let rest = spec_run_bets(step.1, bets.drop_first());
        match step.0 {
            Ok(p) => (rest.0, seq![p] + rest.1),
            Err(_) => (rest.0, rest.1),
        }
    }
}

/// The amounts of a sequence of bet requests, added up.
pub open spec fn spec_sum_bet_amounts(bets: Seq<Bet>) -> int
    decreases bets.len(),
{
    if bets.len() == 0 {
        0
    } else {
        bets[0].amount + spec_sum_bet_amounts(bets.drop_first())
    }
}

/// The stakes of a sequence of positions, added up.
pub open spec fn spec_sum_position_amounts(ps: Seq<Position>) -> int
    decreases ps.len(),
{
    if ps.len() == 0 {
        0
    } else {
        ps[0].amount + spec_sum_position_amounts(ps.drop_first())
    }
}

proof fn lemma_sum_bet_amounts_nonneg(bets: Seq<Bet>)
    ensures
        spec_sum_bet_amounts(bets) >= 0,
    decreases bets.len(),
{
    if bets.len() > 0 {
        lemma_sum_bet_amounts_nonneg(bets.drop_first());
    }
}

/// Pool conservation: run any sequence of bets against a market whose pools
/// they cannot overflow, and the two pool totals together grow by exactly
/// the stakes of the positions those bets created. Starting from a fresh
/// market the totals are thus always the seeded liquidity plus the sum of
/// the `amount` fields of its positions; rejected bets leave no trace.
pub proof fn lemma_pool_conservation(m: Market, bets: Seq<Bet>)
    requires
        m.total_yes_amount + m.total_no_amount + spec_sum_bet_amounts(bets) <= u64::MAX,
    ensures
        ({
            let (m_after, ps) = spec_run_bets(m, bets);
            m_after.total_yes_amount + m_after.total_no_amount == m.total_yes_amount
                + m.total_no_amount + spec_sum_position_amounts(ps)
        }),
    decreases bets.len(),
{
    if bets.len() > 0 {
        let b = bets[0];
        let step = spec_place_bet(m, b.bettor, b.side_handle, b.amount, b.side_for_pool);
        lemma_sum_bet_amounts_nonneg(bets.drop_first());
        lemma_pool_conservation(step.1, bets.drop_first());
        let rest = spec_run_bets(step.1, bets.drop_first());
        if step.0 is Ok {
            assert((seq![step.0->Ok_0] + rest.1).drop_first() =~= rest.1);
        }
    }
}

/// One movement of native currency through a market's vault: a deposit (the
/// creator's seed liquidity or a bettor's stake) or a claim's payout.
pub enum VaultEvent {
    Deposit { amount: u64 },
    Payout { amount: u64 },
}

/// The vault's balance after a history of movements, starting from empty.
pub open spec fn spec_vault_balance(events: Seq<VaultEvent>) -> int
    decreases events.len(),
{
    if events.len() == 0 {
        0
    } else {
        let prev = spec_vault_balance(events.drop_last());
        match events.last() {
            VaultEvent::Deposit { amount } => prev + amount,
            VaultEvent::Payout { amount } => prev - amount,
        }
    }
}

/// Every payout of the history was clamped: it did not exceed the vault's
/// balance just before it. `claim_winnings` guarantees this of every payout
/// it grants, so the history of any market's vault satisfies it.
pub open spec fn spec_payouts_clamped(events: Seq<VaultEvent>) -> bool
    decreases events.len(),
{
    if events.len() == 0 {
        true
    } else {
        &&& spec_payouts_clamped(events.drop_last())
        &&& (events.last() matches VaultEvent::Payout { amount } ==> amount <= spec_vault_balance(
            events.drop_last(),
        ))
    }
}

/// The deposits of a history, added up.
pub open spec fn spec_sum_deposits(events: Seq<VaultEvent>) -> int
    decreases events.len(),
{
    if events.len() == 0 {
        0
    } else {
        spec_sum_deposits(events.drop_last()) + (match events.last() {
            VaultEvent::Deposit { amount } => amount as int,
            VaultEvent::Payout { .. } => 0,
        })
    }
}

/// The payouts of a history, added up.
pub open spec fn spec_sum_payouts(events: Seq<VaultEvent>) -> int
    decreases events.len(),
{
    if events.len() == 0 {
        0
    } else {
        spec_sum_payouts(events.drop_last()) + (match events.last() {
            VaultEvent::Deposit { .. } => 0,
            VaultEvent::Payout { amount } => amount as int,
        })
    }
}

/// Payout solvency: in any vault history whose payouts were each clamped to
/// the balance before them, the balance never goes negative, and the payouts
/// over the market's lifetime never exceed the total ever deposited.
pub proof fn lemma_vault_solvency(events: Seq<VaultEvent>)
    requires
        spec_payouts_clamped(events),
    ensures
        spec_vault_balance(events) == spec_sum_deposits(events) - spec_sum_payouts(events),
        spec_vault_balance(events) >= 0,
        spec_sum_payouts(events) <= spec_sum_deposits(events),
    decreases events.len(),
{
    if events.len() > 0 {
        lemma_vault_solvency(events.drop_last());
    }
}

proof fn lemma_bets_preserve_status(m: Market, bets: Seq<Bet>)
    ensures
        spec_run_bets(m, bets).0.status == m.status,
        same_identity(m, spec_run_bets(m, bets).0),
    decreases bets.len(),
{
    if bets.len() > 0 {
        let b = bets[0];
        let step = spec_place_bet(m, b.bettor, b.side_handle, b.amount, b.side_for_pool);
        lemma_bets_preserve_status(step.1, bets.drop_first());
    }
}

/// Odds immutability: a position's locked payout, once set at bet time, is
/// never rewritten. The settlement operations keep the field bit for bit,
/// and the outcome of a claim is the same whatever bets were placed on the
/// market after the position was opened: later bets move the pools, and the
/// claim does not read them.
pub proof fn lemma_odds_immutable(
    m: Market,
    bets: Seq<Bet>,
    p: Position,
    result_handle: u128,
    caller: u64,
    proof_ok: bool,
    plaintext: Seq<u8>,
    vault_balance: u64,
)
    ensures
        spec_check_winner(m, p, result_handle).1.locked_payout == p.locked_payout,
        spec_claim(m, p, caller, proof_ok, plaintext, vault_balance).1.locked_payout
            == p.locked_payout,
        spec_claim(
            spec_run_bets(m, bets).0,
            p,
            caller,
            proof_ok,
            plaintext,
            vault_balance,
        ) == spec_claim(m, p, caller, proof_ok, plaintext, vault_balance),
{
    lemma_bets_preserve_status(m, bets);
}

/// The single-claim rule: a claim can move `claimed` only from false to
/// true, a position already claimed is refused with `AlreadyClaimed` before
/// anything else but ownership and the winner check is considered, and after
/// one successful claim every further claim by the owner fails with
/// `AlreadyClaimed` and changes nothing, whatever market state, proof,
/// plaintext or vault balance it brings.
pub proof fn lemma_single_claim(
    m1: Market,
    m2: Market,
    p: Position,
    caller: u64,
    proof_ok1: bool,
    proof_ok2: bool,
    plaintext1: Seq<u8>,
    plaintext2: Seq<u8>,
    vault1: u64,
    vault2: u64,
)
    ensures
        ({
            let first = spec_claim(m1, p, caller, proof_ok1, plaintext1, vault1);
            first.1.claimed == (p.claimed || first.0 is Ok)
        }),
        p.claimed && p.owner == caller && p.is_winner_handle != 0 ==> spec_claim(
            m1,
            p,
            caller,
            proof_ok1,
            plaintext1,
            vault1,
        ) == (Err::<u64, DakeError>(DakeError::AlreadyClaimed), p),
        ({
            let first = spec_claim(m1, p, caller, proof_ok1, plaintext1, vault1);
            first.0 is Ok ==> spec_claim(m2, first.1, caller, proof_ok2, plaintext2, vault2) == (
                Err::<u64, DakeError>(DakeError::AlreadyClaimed),
                first.1,
            )
        }),
{
}

/// One operation against a market's state.
pub enum MarketOp {
    Close { caller: u64 },
    Resolve { caller: u64, outcome: bool },
    Bet { bet: Bet },
}

/// The market each operation leaves behind, successful or not.
pub open spec fn spec_market_step(m: Market, op: MarketOp) -> Market {
    match op {
        MarketOp::Close { caller } => spec_close(m, caller).1,
        MarketOp::Resolve { caller, outcome } => spec_resolve(m, caller, outcome).1,
        MarketOp::Bet { bet } => spec_place_bet(
            m,
            bet.bettor,
            bet.side_handle,
            bet.amount,
            bet.side_for_pool,
        ).1,
    }
}

/// A sequence of operations run left to right.
pub open spec fn spec_market_run(m: Market, ops: Seq<MarketOp>) -> Market
    decreases ops.len(),
{
    if ops.len() == 0 {
        m
    } else {
        spec_market_run(spec_market_step(m, ops[0]), ops.drop_first())
    }
}

/// Resolution monotonicity: once a market is resolved, no sequence of
/// operations changes it at all — not its status, not its pool totals, not
/// any other field. The final pool is the immutable basis of every payout.
pub proof fn lemma_resolution_monotonic(m: Market, ops: Seq<MarketOp>)
    requires
        m.spec_is_resolved(),
    ensures
        spec_market_run(m, ops) == m,
    decreases ops.len(),
{
    if ops.len() > 0 {
        assert(spec_market_step(m, ops[0]) == m);
        lemma_resolution_monotonic(m, ops.drop_first());
    }
}

} // verus!
