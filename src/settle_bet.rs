use vstd::prelude::*;
use crate::errors::BettingError;
use crate::state::{Bet, Market, ProxyAccount, Pubkey};

verus! {

/// The records that a settlement reads and writes, the key under which the
/// escrow is stored, and who signs it.
#[derive(Clone, Copy, Debug, PartialEq, Eq, Structural)]
pub struct SettleBet {
    pub bet: Bet,
    pub proxy_account: ProxyAccount,
    pub proxy_account_key: Pubkey,
    pub market: Market,
    pub authority: Pubkey,
}

/// The payout of a won bet: `floor(amount * odds / 100)`.
pub open spec fn winnings(amount: u64, odds: u64) -> int {
    (amount as int * odds as int) / 100
}

/// The first check that a settlement fails, if any, in the order they are made.
pub open spec fn settle_failure(ctx: SettleBet, is_won: bool, now: i64) -> Option<BettingError> {
    let amount = ctx.bet.amount;
    if !ctx.bet.is_active {
        Some(BettingError::BetNotActive)
    } else if ctx.proxy_account.owner != ctx.bet.user || ctx.proxy_account_key != ctx.bet.proxy_account {
        Some(BettingError::Unauthorized)
    } else if ctx.market.authority != ctx.authority {
        Some(BettingError::Unauthorized)
    } else if now < ctx.bet.expiry_time {
        Some(BettingError::BetNotExpired)
    } else if is_won && amount as int * ctx.bet.odds as int > u64::MAX {
        Some(BettingError::ArithmeticOverflow)
    } else if is_won && ctx.proxy_account.balance + winnings(amount, ctx.bet.odds) > u64::MAX {
        Some(BettingError::ArithmeticOverflow)
    } else if !is_won && ctx.market.total_fees + amount > u64::MAX {
        Some(BettingError::ArithmeticOverflow)
    } else if ctx.market.total_volume + amount > u64::MAX {
        Some(BettingError::ArithmeticOverflow)
    } else {
        None
    }
}

/// The records after a successful settlement: a win credits the payout to the
/// escrow, a loss credits the stake to the fees, the volume grows by the stake
/// either way, and the bet is no longer active.
pub open spec fn settled(ctx: SettleBet, is_won: bool) -> SettleBet {
    let amount = ctx.bet.amount;
    SettleBet {
        bet: Bet { is_active: false, ..ctx.bet },
        proxy_account: if is_won {
            ProxyAccount {
                balance: (ctx.proxy_account.balance + winnings(amount, ctx.bet.odds)) as u64,
                ..ctx.proxy_account
            }
        } else {
            ctx.proxy_account
        },
        proxy_account_key: ctx.proxy_account_key,
        market: Market {
            total_fees: if is_won { ctx.market.total_fees } else { (ctx.market.total_fees + amount) as u64 },
            total_volume: (ctx.market.total_volume + amount) as u64,
            ..ctx.market
        },
        authority: ctx.authority,
    }
}

/// Settles the bet as won or lost at time `now`.
pub fn handler(ctx: &mut SettleBet, is_won: bool, now: i64) -> (r: Result<(), BettingError>)
    ensures
        match r {
            Ok(_) => settle_failure(*old(ctx), is_won, now) is None && *final(ctx) == settled(*old(ctx), is_won),
            Err(e) => settle_failure(*old(ctx), is_won, now) == Some(e) && *final(ctx) == *old(ctx),
        },
{
    if !ctx.bet.is_active {
        return Err(BettingError::BetNotActive);
    }
    if ctx.proxy_account.owner != ctx.bet.user || ctx.proxy_account_key != ctx.bet.proxy_account {
        return Err(BettingError::Unauthorized);
    }
    if ctx.market.authority != ctx.authority {
        return Err(BettingError::Unauthorized);
    }
    if now < ctx.bet.expiry_time {
        return Err(BettingError::BetNotExpired);
    }
    let amount = ctx.bet.amount;
    let mut balance = ctx.proxy_account.balance;
    let mut fees = ctx.market.total_fees;
    if is_won {
        let product = match amount.checked_mul(ctx.bet.odds) {
            Some(p) => p,
            None => return Err(BettingError::ArithmeticOverflow),
        };
        let payout = product / 100;
        balance = match balance.checked_add(payout) {
            Some(b) => b,
            None => return Err(BettingError::ArithmeticOverflow),
        };
    } else {
        fees = match fees.checked_add(amount) {
            Some(f) => f,
            None => return Err(BettingError::ArithmeticOverflow),
        };
    }
    let volume = match ctx.market.total_volume.checked_add(amount) {
        Some(v) => v,
        None => return Err(BettingError::ArithmeticOverflow),
    };
    ctx.proxy_account.balance = balance;
    ctx.market.total_fees = fees;
    ctx.market.total_volume = volume;
    ctx.bet.is_active = false;
    Ok(())
}

} // verus!
