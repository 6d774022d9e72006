use dake::bet::place_bet;
use dake::error::DakeError;
use dake::lifecycle::{create_market, resolve_market};
use dake::settle::{
    check_winner, claim_winnings, grant_decrypt_access, parse_plaintext_to_bool,
    proportional_payout, winning_side_value,
};
use dake::state::{Market, MarketStatus, Position};

const AUTHORITY: u64 = 7;
const BETTOR: u64 = 9;
const STRANGER: u64 = 13;
const WINNER_HANDLE: u128 = 0xabcd;

fn seeded_market() -> Market {
    create_market(AUTHORITY, 1, b"Will it rain tomorrow?".to_vec(), 0).unwrap()
}

/// A market with one bet of 100 on yes, and that bettor's position.
fn market_with_position() -> (Market, Position) {
    let mut m = seeded_market();
    let p = place_bet(&mut m, BETTOR, 0x11, 100, 1).unwrap();
    (m, p)
}

#[test]
fn winning_side_value_follows_outcome() {
    let mut m = seeded_market();
    assert_eq!(winning_side_value(&m), Err(DakeError::MarketNotResolved));
    resolve_market(&mut m, AUTHORITY, true).unwrap();
    assert_eq!(winning_side_value(&m), Ok(1));

    let mut n = seeded_market();
    resolve_market(&mut n, AUTHORITY, false).unwrap();
    assert_eq!(winning_side_value(&n), Ok(0));
}

#[test]
fn check_winner_stores_handle() {
    let (mut m, mut p) = market_with_position();
    resolve_market(&mut m, AUTHORITY, true).unwrap();
    assert_eq!(check_winner(&m, &mut p, WINNER_HANDLE), Ok(()));
    assert_eq!(p.is_winner_handle, WINNER_HANDLE);
    assert_eq!(p.locked_payout, 199);
    assert_eq!(p.amount, 100);
    assert_eq!(p.encrypted_side_handle, 0x11);
    assert!(!p.claimed);
}

#[test]
fn check_winner_before_resolution_fails() {
    let (m, mut p) = market_with_position();
    assert_eq!(check_winner(&m, &mut p, WINNER_HANDLE), Err(DakeError::MarketNotResolved));
    assert_eq!(p.is_winner_handle, 0);
}

#[test]
fn check_winner_may_run_again() {
    let (mut m, mut p) = market_with_position();
    resolve_market(&mut m, AUTHORITY, true).unwrap();
    check_winner(&m, &mut p, WINNER_HANDLE).unwrap();
    assert_eq!(check_winner(&m, &mut p, 0x9999), Ok(()));
    assert_eq!(p.is_winner_handle, 0x9999);
}

#[test]
fn grant_decrypt_access_owner_only() {
    let (mut m, mut p) = market_with_position();
    resolve_market(&mut m, AUTHORITY, true).unwrap();
    assert_eq!(grant_decrypt_access(&p, STRANGER), Err(DakeError::NotOwner));
    assert_eq!(grant_decrypt_access(&p, BETTOR), Err(DakeError::NotChecked));
    check_winner(&m, &mut p, WINNER_HANDLE).unwrap();
    assert_eq!(grant_decrypt_access(&p, BETTOR), Ok(WINNER_HANDLE));
    // a grant may be re-issued
    assert_eq!(grant_decrypt_access(&p, BETTOR), Ok(WINNER_HANDLE));
}

#[test]
fn claim_pays_locked_payout() {
    let (mut m, mut p) = market_with_position();
    resolve_market(&mut m, AUTHORITY, true).unwrap();
    check_winner(&m, &mut p, WINNER_HANDLE).unwrap();
    let vault = m.total_pool();
    let paid = claim_winnings(&m, &mut p, BETTOR, true, b"1", vault).unwrap();
    assert_eq!(paid, 199);
    assert!(p.claimed);
    assert_eq!(p.locked_payout, 199);
}

#[test]
fn claim_is_clamped_to_vault_balance() {
    let (mut m, mut p) = market_with_position();
    resolve_market(&mut m, AUTHORITY, true).unwrap();
    check_winner(&m, &mut p, WINNER_HANDLE).unwrap();
    let paid = claim_winnings(&m, &mut p, BETTOR, true, b"1", 50).unwrap();
    assert_eq!(paid, 50);
    assert!(p.claimed);
}

#[test]
fn claim_with_empty_vault_fails() {
    let (mut m, mut p) = market_with_position();
    resolve_market(&mut m, AUTHORITY, true).unwrap();
    check_winner(&m, &mut p, WINNER_HANDLE).unwrap();
    assert_eq!(claim_winnings(&m, &mut p, BETTOR, true, b"1", 0), Err(DakeError::NoFunds));
    assert!(!p.claimed);
}

#[test]
fn claim_before_check_fails() {
    let (mut m, mut p) = market_with_position();
    resolve_market(&mut m, AUTHORITY, true).unwrap();
    assert_eq!(
        claim_winnings(&m, &mut p, BETTOR, true, b"1", 1_000),
        Err(DakeError::NotChecked)
    );
    assert!(!p.claimed);
}

#[test]
fn claim_before_resolution_fails() {
    let (m, mut p) = market_with_position();
    // a winner handle could only come from a resolved market, but the claim
    // still re-checks the market it is handed
    p.is_winner_handle = WINNER_HANDLE;
    assert_eq!(
        claim_winnings(&m, &mut p, BETTOR, true, b"1", 1_000),
        Err(DakeError::MarketNotResolved)
    );
}

#[test]
fn claim_by_stranger_fails() {
    let (mut m, mut p) = market_with_position();
    resolve_market(&mut m, AUTHORITY, true).unwrap();
    check_winner(&m, &mut p, WINNER_HANDLE).unwrap();
    assert_eq!(
        claim_winnings(&m, &mut p, STRANGER, true, b"1", 1_000),
        Err(DakeError::NotOwner)
    );
}

#[test]
fn claim_with_failed_proof_fails() {
    let (mut m, mut p) = market_with_position();
    resolve_market(&mut m, AUTHORITY, true).unwrap();
    check_winner(&m, &mut p, WINNER_HANDLE).unwrap();
    assert_eq!(
        claim_winnings(&m, &mut p, BETTOR, false, b"1", 1_000),
        Err(DakeError::NotWinner)
    );
    assert!(!p.claimed);
}

#[test]
fn claim_with_losing_plaintext_fails() {
    let (mut m, mut p) = market_with_position();
    resolve_market(&mut m, AUTHORITY, true).unwrap();
    check_winner(&m, &mut p, WINNER_HANDLE).unwrap();
    assert_eq!(
        claim_winnings(&m, &mut p, BETTOR, true, b"0", 1_000),
        Err(DakeError::NotWinner)
    );
    assert_eq!(
        claim_winnings(&m, &mut p, BETTOR, true, &[0, 0, 0, 0], 1_000),
        Err(DakeError::NotWinner)
    );
}

#[test]
fn double_claim_fails() {
    let (mut m, mut p) = market_with_position();
    resolve_market(&mut m, AUTHORITY, true).unwrap();
    check_winner(&m, &mut p, WINNER_HANDLE).unwrap();
    claim_winnings(&m, &mut p, BETTOR, true, b"1", 1_000).unwrap();
    assert_eq!(
        claim_winnings(&m, &mut p, BETTOR, true, b"1", 1_000),
        Err(DakeError::AlreadyClaimed)
    );
    assert!(p.claimed);
}

#[test]
fn claim_after_later_bets_pays_the_same() {
    let (mut m, mut p) = market_with_position();
    for i in 0..100u64 {
        place_bet(&mut m, 100 + i, 0x1000 + i as u128, 10_000, (i % 2) as u8).unwrap();
    }
    resolve_market(&mut m, AUTHORITY, true).unwrap();
    check_winner(&m, &mut p, WINNER_HANDLE).unwrap();
    let paid = claim_winnings(&m, &mut p, BETTOR, true, b"1", m.total_pool()).unwrap();
    // still the payout locked when the pools stood at 500,000,100 / 500,000,000
    assert_eq!(paid, 199);
}

#[test]
fn payouts_never_exceed_deposits() {
    let mut m = Market {
        authority: AUTHORITY,
        market_id: 1,
        question: Vec::new(),
        resolution_time: 0,
        status: MarketStatus::Open,
        total_yes_amount: 0,
        total_no_amount: 0,
        participant_count: 0,
    };
    let mut pos_yes = place_bet(&mut m, BETTOR, 0x11, 100, 1).unwrap();
    let mut pos_no = place_bet(&mut m, STRANGER, 0x22, 300, 0).unwrap();
    let deposits: u64 = 100 + 300;
    let mut vault = deposits;
    resolve_market(&mut m, AUTHORITY, true).unwrap();
    check_winner(&m, &mut pos_yes, WINNER_HANDLE).unwrap();
    check_winner(&m, &mut pos_no, WINNER_HANDLE + 1).unwrap();

    let mut paid_out: u64 = 0;
    let vault_before = vault;
    let paid = claim_winnings(&m, &mut pos_yes, BETTOR, true, b"1", vault).unwrap();
    assert!(paid <= vault_before);
    vault -= paid;
    paid_out += paid;
    // the loser's decrypted verdict reads false, so nothing leaves the vault
    assert_eq!(
        claim_winnings(&m, &mut pos_no, STRANGER, true, b"0", vault),
        Err(DakeError::NotWinner)
    );
    assert!(paid_out <= deposits);
    assert_eq!(vault, deposits - paid_out);
}

#[test]
fn parse_plaintext_cases() {
    assert!(!parse_plaintext_to_bool(b""));
    assert!(!parse_plaintext_to_bool(&[0, 0, 0, 0]));
    assert!(!parse_plaintext_to_bool(b"0"));
    assert!(!parse_plaintext_to_bool(b"00"));
    assert!(!parse_plaintext_to_bool(b"false"));
    assert!(parse_plaintext_to_bool(b"1"));
    assert!(parse_plaintext_to_bool(b"true"));
    assert!(parse_plaintext_to_bool(&[1, 0, 0, 0]));
    assert!(parse_plaintext_to_bool(&[0, 7]));
    assert!(parse_plaintext_to_bool(b"false "));
}

#[test]
fn proportional_payout_splits_whole_pool() {
    // an unseeded market with bets of 100 on yes and 300 on no, resolved
    // yes: the one winner takes the whole pool
    let mut m = Market {
        authority: AUTHORITY,
        market_id: 1,
        question: Vec::new(),
        resolution_time: 0,
        status: MarketStatus::Open,
        total_yes_amount: 0,
        total_no_amount: 0,
        participant_count: 0,
    };
    let p = place_bet(&mut m, BETTOR, 0x11, 100, 1).unwrap();
    place_bet(&mut m, STRANGER, 0x22, 300, 0).unwrap();
    resolve_market(&mut m, AUTHORITY, true).unwrap();
    let payout = proportional_payout(p.amount, m.total_yes_amount, m.total_pool());
    assert_eq!(payout, 400);
    // clamped to a vault holding exactly the 400 staked
    assert_eq!(payout.min(400), 400);
}

#[test]
fn proportional_payout_empty_pool_degenerates() {
    assert_eq!(proportional_payout(5, 0, 400), 5);
    assert_eq!(proportional_payout(250, 1_000, 2_000), 500);
}
