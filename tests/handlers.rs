use tap_trading::create_bet::{self, CreateBet};
use tap_trading::create_proxy_account::{self, CreateProxyAccount, Deposit};
use tap_trading::deposit;
use tap_trading::errors::BettingError;
use tap_trading::initialize_market::{self, InitializeMarket};
use tap_trading::session::is_authorized;
use tap_trading::settle_bet::{self, SettleBet};
use tap_trading::state::{Bet, Market, ProxyAccount, Pubkey, SessionToken};
use tap_trading::withdraw_owner::{self, WithdrawOwner};
use tap_trading::withdraw_user::{self, WithdrawUser};

fn key(n: u64) -> Pubkey {
    Pubkey::new(n, n, n, n)
}

fn account(balance: u64) -> ProxyAccount {
    ProxyAccount { owner: key(2), balance, total_bets: 0, total_deposited: balance, total_withdrawn: 0, bump: 1 }
}

fn market() -> Market {
    Market { authority: key(1), total_volume: 0, total_fees: 0, is_active: true, bump: 2 }
}

fn bet(amount: u64, odds: u64) -> Bet {
    Bet {
        user: key(2),
        market: key(100),
        proxy_account: key(20),
        timestamp: 5,
        odds,
        expiry_time: 50,
        amount,
        is_active: true,
        bump: 3,
    }
}

fn settle_ctx(amount: u64, odds: u64) -> SettleBet {
    SettleBet {
        bet: bet(amount, odds),
        proxy_account: account(0),
        proxy_account_key: key(20),
        market: market(),
        authority: key(1),
    }
}

#[test]
fn payout_truncates() {
    let mut c = settle_ctx(500, 150);
    settle_bet::handler(&mut c, true, 50).unwrap();
    assert_eq!(c.proxy_account.balance, 750);
    assert!(!c.bet.is_active);
    let mut c = settle_ctx(7, 133);
    settle_bet::handler(&mut c, true, 60).unwrap();
    assert_eq!(c.proxy_account.balance, 9);
    assert_eq!(c.market.total_volume, 7);
    let mut c = settle_ctx(1, 99);
    settle_bet::handler(&mut c, true, 60).unwrap();
    assert_eq!(c.proxy_account.balance, 0);
}

#[test]
fn settle_failures() {
    let mut c = settle_ctx(10, 100);
    c.bet.is_active = false;
    let before = c;
    assert_eq!(settle_bet::handler(&mut c, true, 60), Err(BettingError::BetNotActive));
    assert_eq!(c, before);

    let mut c = settle_ctx(10, 100);
    c.proxy_account.owner = key(9);
    assert_eq!(settle_bet::handler(&mut c, true, 60), Err(BettingError::Unauthorized));

    let mut c = settle_ctx(10, 100);
    c.proxy_account_key = key(2);
    assert_eq!(settle_bet::handler(&mut c, true, 60), Err(BettingError::Unauthorized));

    let mut c = settle_ctx(10, 100);
    c.authority = key(9);
    assert_eq!(settle_bet::handler(&mut c, false, 60), Err(BettingError::Unauthorized));

    let mut c = settle_ctx(10, 100);
    assert_eq!(settle_bet::handler(&mut c, false, 49), Err(BettingError::BetNotExpired));

    let mut c = settle_ctx(u64::MAX / 2 + 1, 2);
    let before = c;
    assert_eq!(settle_bet::handler(&mut c, true, 60), Err(BettingError::ArithmeticOverflow));
    assert_eq!(c, before);

    let mut c = settle_ctx(10, 100);
    c.proxy_account.balance = u64::MAX - 9;
    assert_eq!(settle_bet::handler(&mut c, true, 60), Err(BettingError::ArithmeticOverflow));

    let mut c = settle_ctx(10, 100);
    c.market.total_fees = u64::MAX - 9;
    assert_eq!(settle_bet::handler(&mut c, false, 60), Err(BettingError::ArithmeticOverflow));

    let mut c = settle_ctx(10, 100);
    c.market.total_volume = u64::MAX;
    let before = c;
    assert_eq!(settle_bet::handler(&mut c, true, 60), Err(BettingError::ArithmeticOverflow));
    assert_eq!(c, before);
}

#[test]
fn settle_lost_at_expiry() {
    let mut c = settle_ctx(10, 100);
    settle_bet::handler(&mut c, false, 50).unwrap();
    assert_eq!(c.market.total_fees, 10);
    assert_eq!(c.market.total_volume, 10);
    assert_eq!(c.proxy_account.balance, 0);
}

fn create_ctx(balance: u64) -> CreateBet {
    CreateBet {
        proxy_account: account(balance),
        proxy_account_key: key(20),
        market: market(),
        market_key: key(100),
        session_token: None,
        signer: key(2),
        bump: 3,
    }
}

#[test]
fn create_bet_snapshot() {
    let mut c = create_ctx(100);
    let b = create_bet::handler(&mut c, 5, 150, 50, 40, 10).unwrap();
    assert_eq!(b, bet(40, 150));
    assert_eq!(c.proxy_account.balance, 60);
    assert_eq!(c.proxy_account.total_bets, 1);
}

#[test]
fn create_bet_failures() {
    let mut c = create_ctx(100);
    c.market.is_active = false;
    assert_eq!(create_bet::handler(&mut c, 5, 150, 50, 40, 10), Err(BettingError::MarketNotActive));
    let mut c = create_ctx(100);
    c.signer = key(7);
    assert_eq!(create_bet::handler(&mut c, 5, 150, 50, 40, 10), Err(BettingError::DelegationInvalid));
    let mut c = create_ctx(100);
    assert_eq!(create_bet::handler(&mut c, 5, 150, 50, 0, 10), Err(BettingError::InvalidBetAmount));
    assert_eq!(create_bet::handler(&mut c, 5, 0, 50, 40, 10), Err(BettingError::InvalidOdds));
    assert_eq!(create_bet::handler(&mut c, 5, 150, 10, 40, 10), Err(BettingError::InvalidTimestamp));
    assert_eq!(create_bet::handler(&mut c, 5, 150, 50, 101, 10), Err(BettingError::InsufficientBalance));
    c.proxy_account.total_bets = u64::MAX;
    assert_eq!(create_bet::handler(&mut c, 5, 150, 50, 100, 10), Err(BettingError::ArithmeticOverflow));
    assert_eq!(c.proxy_account.balance, 100);
}

#[test]
fn session_credential_rules() {
    let t = SessionToken { authority: key(2), session_signer: key(7), valid_until: 20 };
    assert!(is_authorized(key(7), key(2), Some(t), 19));
    assert!(!is_authorized(key(7), key(2), Some(t), 20));
    assert!(!is_authorized(key(8), key(2), Some(t), 19));
    assert!(!is_authorized(key(7), key(3), Some(t), 19));
    assert!(is_authorized(key(2), key(2), Some(t), 19));
    assert!(is_authorized(key(2), key(2), Some(t), 25));
    assert!(is_authorized(key(2), key(2), None, 0));
    assert!(!is_authorized(key(7), key(2), None, 0));
}

#[test]
fn deposits_credit_the_escrow() {
    let mut c = Deposit { proxy_account: account(10), owner: key(2) };
    create_proxy_account::deposit_handler(&mut c, 5).unwrap();
    assert_eq!(c.proxy_account.balance, 15);
    assert_eq!(c.proxy_account.total_deposited, 15);
    assert_eq!(create_proxy_account::deposit_handler(&mut c, 0), Err(BettingError::InvalidBetAmount));
    c.proxy_account.total_deposited = u64::MAX;
    assert_eq!(create_proxy_account::deposit_handler(&mut c, 1), Err(BettingError::ArithmeticOverflow));
    assert_eq!(c.proxy_account.balance, 15);
    c.owner = key(3);
    assert_eq!(create_proxy_account::deposit_handler(&mut c, 1), Err(BettingError::Unauthorized));

    let mut d = deposit::Deposit { proxy_account: account(10), user: key(2) };
    deposit::deposit(&mut d, 7).unwrap();
    assert_eq!(d.proxy_account.balance, 17);
    assert_eq!(d.proxy_account.total_deposited, 17);
    d.proxy_account.total_deposited = u64::MAX;
    assert_eq!(deposit::deposit(&mut d, 1), Err(BettingError::ArithmeticOverflow));
    assert_eq!(d.proxy_account.balance, 17);
    d.proxy_account.balance = u64::MAX;
    d.proxy_account.total_deposited = 0;
    assert_eq!(deposit::deposit(&mut d, 1), Err(BettingError::ArithmeticOverflow));
    assert_eq!(d.proxy_account.total_deposited, 0);
}

#[test]
fn records_start_empty() {
    let p = create_proxy_account::handler(&CreateProxyAccount { owner: key(2), bump: 9 });
    assert_eq!(p, ProxyAccount { owner: key(2), balance: 0, total_bets: 0, total_deposited: 0, total_withdrawn: 0, bump: 9 });
    let m = initialize_market::handler(&InitializeMarket { authority: key(1), bump: 8 });
    assert_eq!(m, Market { authority: key(1), total_volume: 0, total_fees: 0, is_active: true, bump: 8 });
}

#[test]
fn user_withdrawal_moves_lamports() {
    let mut c = WithdrawUser { proxy_account: account(100), proxy_lamports: 1_000, owner: key(2), owner_lamports: 5 };
    withdraw_user::handler(&mut c, 30).unwrap();
    assert_eq!(c.proxy_account.balance, 70);
    assert_eq!(c.proxy_account.total_withdrawn, 30);
    assert_eq!(c.proxy_lamports, 970);
    assert_eq!(c.owner_lamports, 35);
    let before = c;
    c.owner = key(3);
    assert_eq!(withdraw_user::handler(&mut c, 0), Err(BettingError::Unauthorized));
    c.owner = key(2);
    assert_eq!(withdraw_user::handler(&mut c, 71), Err(BettingError::InsufficientBalance));
    c.proxy_lamports = 10;
    assert_eq!(withdraw_user::handler(&mut c, 20), Err(BettingError::ArithmeticOverflow));
    c.proxy_lamports = 970;
    c.owner_lamports = u64::MAX;
    assert_eq!(withdraw_user::handler(&mut c, 20), Err(BettingError::ArithmeticOverflow));
    c.owner_lamports = 35;
    assert_eq!(c, before);
}

#[test]
fn owner_withdrawal_keeps_reserve() {
    let mut m = market();
    m.total_fees = 500;
    let mut c = WithdrawOwner { market: m, market_lamports: 2_000, authority: key(1), authority_lamports: 0, rent_exempt: 1_000 };
    withdraw_owner::handler(&mut c, 1_000).unwrap_err();
    withdraw_owner::handler(&mut c, 500).unwrap();
    assert_eq!(c.market.total_fees, 0);
    assert_eq!(c.market_lamports, 1_500);
    assert_eq!(c.authority_lamports, 500);
    c.market.total_fees = 10;
    c.authority_lamports = u64::MAX;
    assert_eq!(withdraw_owner::handler(&mut c, 10), Err(BettingError::ArithmeticOverflow));
    c.authority = key(4);
    assert_eq!(withdraw_owner::handler(&mut c, 0), Err(BettingError::Unauthorized));
}

#[test]
fn error_messages() {
    assert_eq!(BettingError::BetExpired.message(), "Bet has already expired");
    assert_eq!(BettingError::InsufficientBalance.message(), "Insufficient balance in proxy account");
    assert_eq!(BettingError::ArithmeticOverflow.message(), "Arithmetic overflow");
}
