use vstd::prelude::*;
use crate::errors::BettingError;
use crate::session::{is_authorized, signer_allowed};
use crate::state::{Bet, Market, ProxyAccount, Pubkey, SessionToken};

verus! {

/// The records that a new bet reads and writes, the keys under which the
/// escrow and the market are stored, who signs it, and the address nonce that
/// the new bet record gets.
#[derive(Clone, Copy, Debug, PartialEq, Eq, Structural)]
pub struct CreateBet {
    pub proxy_account: ProxyAccount,
    pub proxy_account_key: Pubkey,
    pub market: Market,
    pub market_key: Pubkey,
    pub session_token: Option<SessionToken>,
    pub signer: Pubkey,
    pub bump: u8,
}

/// The first check that a new bet fails, if any, in the order they are made.
pub open spec fn create_bet_failure(
    ctx: CreateBet,
    odds: u64,
    expiry_time: i64,
    amount: u64,
    now: i64,
) -> Option<BettingError> {
    if !ctx.market.is_active {
        Some(BettingError::MarketNotActive)
    } else if !signer_allowed(ctx.signer, ctx.proxy_account.owner, ctx.session_token, now) {
        Some(BettingError::DelegationInvalid)
    } else if amount == 0 {
        Some(BettingError::InvalidBetAmount)
    } else if odds == 0 {
        Some(BettingError::InvalidOdds)
    } else if expiry_time <= now {
        Some(BettingError::InvalidTimestamp)
    } else if ctx.proxy_account.balance < amount {
        Some(BettingError::InsufficientBalance)
    } else if ctx.proxy_account.total_bets == u64::MAX {
        Some(BettingError::ArithmeticOverflow)
    } else {
        None
    }
}

/// The bet record that a successful call creates: active, holding the stake.
pub open spec fn new_bet(ctx: CreateBet, timestamp: i64, odds: u64, expiry_time: i64, amount: u64) -> Bet {
    Bet {
        user: ctx.proxy_account.owner,
        market: ctx.market_key,
        proxy_account: ctx.proxy_account_key,
        timestamp,
        odds,
        expiry_time,
        amount,
        is_active: true,
        bump: ctx.bump,
    }
}

/// The escrow record after a successful call: the stake is taken from the
/// balance and the bet is counted.
pub open spec fn staked(p: ProxyAccount, amount: u64) -> ProxyAccount {
    ProxyAccount { balance: (p.balance - amount) as u64, total_bets: (p.total_bets + 1) as u64, ..p }
}

/// Places a bet of `amount` at `odds` percent that can be settled from
/// `expiry_time` on; `now` is the current time.
pub fn handler(
    ctx: &mut CreateBet,
    timestamp: i64,
    odds: u64,
    expiry_time: i64,
    amount: u64,
    now: i64,
) -> (r: Result<Bet, BettingError>)
    ensures
        match r {
            Ok(bet) => create_bet_failure(*old(ctx), odds, expiry_time, amount, now) is None
                && bet == new_bet(*old(ctx), timestamp, odds, expiry_time, amount)
                && *final(ctx) == (CreateBet { proxy_account: staked(old(ctx).proxy_account, amount), ..*old(ctx) }),
            Err(e) => create_bet_failure(*old(ctx), odds, expiry_time, amount, now) == Some(e)
                && *final(ctx) == *old(ctx),
        },
{
    if !ctx.market.is_active {
        return Err(BettingError::MarketNotActive);
    }
    if !is_authorized(ctx.signer, ctx.proxy_account.owner, ctx.session_token, now) {
        return Err(BettingError::DelegationInvalid);
    }
    if amount == 0 {
        return Err(BettingError::InvalidBetAmount);
    }
    if odds == 0 {
        return Err(BettingError::InvalidOdds);
    }
    if expiry_time <= now {
        return Err(BettingError::InvalidTimestamp);
    }
    if ctx.proxy_account.balance < amount {
        return Err(BettingError::InsufficientBalance);
    }
    let balance = ctx.proxy_account.balance - amount;
    let total_bets = match ctx.proxy_account.total_bets.checked_add(1) {
        Some(t) => t,
        None => return Err(BettingError::ArithmeticOverflow),
    };
    ctx.proxy_account.balance = balance;
    ctx.proxy_account.total_bets = total_bets;
    Ok(Bet {
        user: ctx.proxy_account.owner,
        market: ctx.market_key,
        proxy_account: ctx.proxy_account_key,
        timestamp,
        odds,
        expiry_time,
        amount,
        is_active: true,
        bump: ctx.bump,
    })
}

} // verus!
