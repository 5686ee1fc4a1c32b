use tap_trading::errors::BettingError;
use tap_trading::ledger::Ledger;
use tap_trading::state::{Pubkey, SessionToken};

fn key(n: u64) -> Pubkey {
    Pubkey::new(n, 0, 0, 0)
}

const T: i64 = 1_000;

/// A market run by `key(1)`, an escrow of `key(2)` holding 1000, and a bet
/// of 500 at 150 percent expiring at `T + 10`.
fn setup() -> Ledger {
    let mut l = Ledger::new(key(100));
    l.initialize_market(key(1), 255).unwrap();
    l.create_proxy_account(key(2), 254).unwrap();
    l.deposit(key(2), 1000).unwrap();
    l.create_bet(key(2), key(2), None, T, 150, T + 10, 500, T, 253).unwrap();
    l
}

#[test]
fn won_bet_pays_odds() {
    let mut l = setup();
    assert_eq!(l.proxy_account(key(2)).unwrap().balance, 500);
    l.settle_bet(key(1), key(2), T, true, T + 10).unwrap();
    let p = l.proxy_account(key(2)).unwrap();
    assert_eq!(p.balance, 1250);
    let m = l.market().unwrap();
    assert_eq!(m.total_volume, 500);
    assert_eq!(m.total_fees, 0);
    assert!(l.bet(key(2), T).is_none());
}

#[test]
fn lost_bet_goes_to_fees() {
    let mut l = setup();
    l.settle_bet(key(1), key(2), T, false, T + 20).unwrap();
    assert_eq!(l.proxy_account(key(2)).unwrap().balance, 500);
    let m = l.market().unwrap();
    assert_eq!(m.total_fees, 500);
    assert_eq!(m.total_volume, 500);
}

#[test]
fn zero_bet_is_rejected_without_change() {
    let mut l = setup();
    let before = l.proxy_account(key(2)).unwrap();
    assert_eq!(
        l.create_bet(key(2), key(2), None, T + 1, 150, T + 10, 0, T, 0),
        Err(BettingError::InvalidBetAmount)
    );
    assert_eq!(l.proxy_account(key(2)).unwrap(), before);
    assert!(l.bet(key(2), T + 1).is_none());
}

#[test]
fn overdrawn_withdrawal_is_rejected() {
    let mut l = setup();
    assert_eq!(l.withdraw_user(key(2), 501, 10_000, 0), Err(BettingError::InsufficientBalance));
    assert_eq!(l.proxy_account(key(2)).unwrap().balance, 500);
    assert_eq!(l.withdraw_user(key(2), 200, 10_000, 7), Ok((9_800, 207)));
    let p = l.proxy_account(key(2)).unwrap();
    assert_eq!(p.balance, 300);
    assert_eq!(p.total_withdrawn, 200);
}

#[test]
fn bets_of_one_owner_are_independent() {
    let mut l = setup();
    l.create_bet(key(2), key(2), None, T + 1, 200, T + 50, 100, T, 0).unwrap();
    assert_eq!(l.proxy_account(key(2)).unwrap().balance, 400);
    assert_eq!(l.proxy_account(key(2)).unwrap().total_bets, 2);
    l.settle_bet(key(1), key(2), T, false, T + 10).unwrap();
    let other = l.bet(key(2), T + 1).unwrap();
    assert!(other.is_active);
    assert_eq!(other.amount, 100);
    assert_eq!(l.proxy_account(key(2)).unwrap().balance, 400);
    l.settle_bet(key(1), key(2), T + 1, true, T + 50).unwrap();
    assert_eq!(l.proxy_account(key(2)).unwrap().balance, 600);
}

#[test]
fn settling_twice_fails() {
    let mut l = setup();
    l.settle_bet(key(1), key(2), T, true, T + 10).unwrap();
    assert_eq!(l.settle_bet(key(1), key(2), T, true, T + 10), Err(BettingError::RecordNotFound));
    assert_eq!(l.proxy_account(key(2)).unwrap().balance, 1250);
}

#[test]
fn settling_early_fails() {
    let mut l = setup();
    assert_eq!(l.settle_bet(key(1), key(2), T, true, T + 9), Err(BettingError::BetNotExpired));
    assert!(l.bet(key(2), T).unwrap().is_active);
    l.settle_bet(key(1), key(2), T, true, T + 10).unwrap();
}

#[test]
fn wrong_authority_cannot_settle() {
    let mut l = setup();
    assert_eq!(l.settle_bet(key(3), key(2), T, true, T + 10), Err(BettingError::Unauthorized));
    assert_eq!(l.settle_bet(key(3), key(2), T, true, T), Err(BettingError::Unauthorized));
    assert!(l.bet(key(2), T).is_some());
}

#[test]
fn zero_deposit_and_withdrawal_fail() {
    let mut l = setup();
    assert_eq!(l.deposit(key(2), 0), Err(BettingError::InvalidBetAmount));
    assert_eq!(l.withdraw_user(key(2), 0, 10_000, 0), Err(BettingError::InvalidBetAmount));
    assert_eq!(l.withdraw_owner(key(1), 0, 10_000, 0, 0), Err(BettingError::InvalidBetAmount));
}

#[test]
fn records_are_created_once() {
    let mut l = setup();
    assert_eq!(l.initialize_market(key(3), 0), Err(BettingError::RecordAlreadyExists));
    assert_eq!(l.market().unwrap().authority, key(1));
    assert_eq!(l.create_proxy_account(key(2), 0), Err(BettingError::RecordAlreadyExists));
    assert_eq!(
        l.create_bet(key(2), key(2), None, T, 150, T + 10, 100, T, 0),
        Err(BettingError::RecordAlreadyExists)
    );
}

#[test]
fn missing_records_are_reported() {
    let mut l = Ledger::new(key(100));
    assert_eq!(l.deposit(key(2), 5), Err(BettingError::RecordNotFound));
    assert_eq!(l.withdraw_owner(key(1), 5, 10_000, 0, 0), Err(BettingError::RecordNotFound));
    l.create_proxy_account(key(2), 0).unwrap();
    l.deposit(key(2), 5).unwrap();
    assert_eq!(
        l.create_bet(key(2), key(2), None, T, 150, T + 10, 5, T, 0),
        Err(BettingError::RecordNotFound)
    );
    l.initialize_market(key(1), 0).unwrap();
    assert_eq!(l.settle_bet(key(1), key(2), T, true, T + 10), Err(BettingError::RecordNotFound));
    assert_eq!(l.withdraw_user(key(9), 5, 10_000, 0), Err(BettingError::RecordNotFound));
}

#[test]
fn session_signer_places_bets() {
    let mut l = setup();
    let token = SessionToken { authority: key(2), session_signer: key(7), valid_until: T + 5 };
    l.create_bet(key(7), key(2), Some(token), T + 1, 110, T + 10, 100, T + 4, 0).unwrap();
    assert_eq!(l.bet(key(2), T + 1).unwrap().user, key(2));
    assert_eq!(
        l.create_bet(key(7), key(2), Some(token), T + 2, 110, T + 10, 100, T + 5, 0),
        Err(BettingError::DelegationInvalid)
    );
    assert_eq!(
        l.create_bet(key(7), key(2), None, T + 2, 110, T + 10, 100, T, 0),
        Err(BettingError::DelegationInvalid)
    );
    let foreign = SessionToken { authority: key(8), session_signer: key(7), valid_until: T + 5 };
    assert_eq!(
        l.create_bet(key(7), key(2), Some(foreign), T + 2, 110, T + 10, 100, T, 0),
        Err(BettingError::DelegationInvalid)
    );
}

#[test]
fn owner_signs_despite_a_stale_token() {
    let mut l = setup();
    let stale = SessionToken { authority: key(2), session_signer: key(7), valid_until: T - 1 };
    l.create_bet(key(2), key(2), Some(stale), T + 3, 110, T + 10, 100, T, 0).unwrap();
    let foreign = SessionToken { authority: key(8), session_signer: key(9), valid_until: T + 100 };
    l.create_bet(key(2), key(2), Some(foreign), T + 4, 110, T + 10, 100, T, 0).unwrap();
    assert_eq!(l.proxy_account(key(2)).unwrap().balance, 300);
    assert_eq!(l.bet(key(2), T + 4).unwrap().proxy_account, key(2));
}

#[test]
fn fees_are_withdrawn_above_the_reserve() {
    let mut l = setup();
    l.settle_bet(key(1), key(2), T, false, T + 10).unwrap();
    assert_eq!(l.withdraw_owner(key(2), 100, 10_000, 0, 1_000), Err(BettingError::Unauthorized));
    assert_eq!(l.withdraw_owner(key(1), 501, 10_000, 0, 1_000), Err(BettingError::InsufficientBalance));
    assert_eq!(l.withdraw_owner(key(1), 400, 1_300, 0, 1_000), Err(BettingError::InsufficientBalance));
    assert_eq!(l.withdraw_owner(key(1), 400, 300, 0, 0), Err(BettingError::InsufficientBalance));
    assert_eq!(l.withdraw_owner(key(1), 300, 1_300, 4, 1_000), Ok((1_000, 304)));
    assert_eq!(l.market().unwrap().total_fees, 200);
}

#[test]
fn conservation_over_a_run() {
    let mut l = setup();
    let held = |l: &Ledger| -> u128 {
        let p = l.proxy_account(key(2)).unwrap().balance as u128;
        let b = l.bet(key(2), T).map(|b| b.amount as u128).unwrap_or(0);
        p + b + l.market().unwrap().total_fees as u128
    };
    assert_eq!(held(&l), 1000);
    l.deposit(key(2), 250).unwrap();
    assert_eq!(held(&l), 1250);
    l.settle_bet(key(1), key(2), T, false, T + 10).unwrap();
    assert_eq!(held(&l), 1250);
    l.withdraw_owner(key(1), 100, 10_000, 0, 0).unwrap();
    assert_eq!(held(&l), 1150);
    l.withdraw_user(key(2), 50, 10_000, 0).unwrap();
    assert_eq!(held(&l), 1100);
}
