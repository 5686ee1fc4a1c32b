use vstd::prelude::*;
use crate::errors::BettingError;
use crate::state::{ProxyAccount, Pubkey};

verus! {

/// The escrow record and the currency held at the two addresses that a
/// withdrawal by the owner moves currency between.
#[derive(Clone, Copy, Debug, PartialEq, Eq, Structural)]
pub struct WithdrawUser {
    pub proxy_account: ProxyAccount,
    pub proxy_lamports: u64,
    pub owner: Pubkey,
    pub owner_lamports: u64,
}

/// The first check that a withdrawal by the owner fails, if any.
pub open spec fn withdraw_user_failure(ctx: WithdrawUser, amount: u64) -> Option<BettingError> {
    if ctx.proxy_account.owner != ctx.owner {
        Some(BettingError::Unauthorized)
    } else if amount == 0 {
        Some(BettingError::InvalidBetAmount)
    } else if ctx.proxy_account.balance < amount {
        Some(BettingError::InsufficientBalance)
    } else if ctx.proxy_lamports < amount {
        Some(BettingError::ArithmeticOverflow)
    } else if ctx.owner_lamports + amount > u64::MAX {
        Some(BettingError::ArithmeticOverflow)
    } else if ctx.proxy_account.total_withdrawn + amount > u64::MAX {
        Some(BettingError::ArithmeticOverflow)
    } else {
        None
    }
}

/// The records after a successful withdrawal of `amount`.
pub open spec fn withdrawn_by_user(ctx: WithdrawUser, amount: u64) -> WithdrawUser {
    WithdrawUser {
        proxy_account: ProxyAccount {
            balance: (ctx.proxy_account.balance - amount) as u64,
            total_withdrawn: (ctx.proxy_account.total_withdrawn + amount) as u64,
            ..ctx.proxy_account
        },
        proxy_lamports: (ctx.proxy_lamports - amount) as u64,
        owner_lamports: (ctx.owner_lamports + amount) as u64,
        ..ctx
    }
}

/// Moves `amount` from the escrow back to its owner.
pub fn handler(ctx: &mut WithdrawUser, amount: u64) -> (r: Result<(), BettingError>)
    ensures
        match r {
            Ok(_) => withdraw_user_failure(*old(ctx), amount) is None
                && *final(ctx) == withdrawn_by_user(*old(ctx), amount),
            Err(e) => withdraw_user_failure(*old(ctx), amount) == Some(e) && *final(ctx) == *old(ctx),
        },
{
    if ctx.proxy_account.owner != ctx.owner {
        return Err(BettingError::Unauthorized);
    }
    if amount == 0 {
        return Err(BettingError::InvalidBetAmount);
    }
    if ctx.proxy_account.balance < amount {
        return Err(BettingError::InsufficientBalance);
    }
    let proxy_lamports = match ctx.proxy_lamports.checked_sub(amount) {
        Some(l) => l,
        None => return Err(BettingError::ArithmeticOverflow),
    };
    let owner_lamports = match ctx.owner_lamports.checked_add(amount) {
        Some(l) => l,
        None => return Err(BettingError::ArithmeticOverflow),
    };
    let total_withdrawn = match ctx.proxy_account.total_withdrawn.checked_add(amount) {
        Some(t) => t,
        None => return Err(BettingError::ArithmeticOverflow),
    };
    ctx.proxy_lamports = proxy_lamports;
    ctx.owner_lamports = owner_lamports;
    ctx.proxy_account.balance = ctx.proxy_account.balance - amount;
    ctx.proxy_account.total_withdrawn = total_withdrawn;
    Ok(())
}

} // verus!
