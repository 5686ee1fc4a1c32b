use vstd::prelude::*;
use crate::errors::BettingError;
use crate::state::{ProxyAccount, Pubkey};

verus! {

/// Who asks for a new escrow record, and the address nonce it gets.
#[derive(Clone, Copy, Debug, PartialEq, Eq, Structural)]
pub struct CreateProxyAccount {
    pub owner: Pubkey,
    pub bump: u8,
}

/// Creates the escrow record of the signer, every counter at zero.
pub fn handler(ctx: &CreateProxyAccount) -> (r: ProxyAccount)
    ensures
        r == (ProxyAccount {
            owner: ctx.owner,
            balance: 0,
            total_bets: 0,
            total_deposited: 0,
            total_withdrawn: 0,
            bump: ctx.bump,
        }),
{
    ProxyAccount::new(ctx.owner, ctx.bump)
}

/// The escrow record that a deposit credits, and who signs it.
#[derive(Clone, Copy, Debug, PartialEq, Eq, Structural)]
pub struct Deposit {
    pub proxy_account: ProxyAccount,
    pub owner: Pubkey,
}

/// The first check that a deposit into `p` by `signer` fails, if any.
pub open spec fn deposit_failure(p: ProxyAccount, signer: Pubkey, amount: u64) -> Option<BettingError> {
    if p.owner != signer {
        Some(BettingError::Unauthorized)
    } else if amount == 0 {
        Some(BettingError::InvalidBetAmount)
    } else if p.balance + amount > u64::MAX || p.total_deposited + amount > u64::MAX {
        Some(BettingError::ArithmeticOverflow)
    } else {
        None
    }
}

/// The escrow record after a successful deposit of `amount`.
pub open spec fn deposited(p: ProxyAccount, amount: u64) -> ProxyAccount {
    ProxyAccount {
        balance: (p.balance + amount) as u64,
        total_deposited: (p.total_deposited + amount) as u64,
        ..p
    }
}

/// Credits `amount` to the signer's escrow record. The currency itself is
/// moved by the caller, only when this returns `Ok`.
pub fn deposit_handler(ctx: &mut Deposit, amount: u64) -> (r: Result<(), BettingError>)
    ensures
        match r {
            Ok(_) => deposit_failure(old(ctx).proxy_account, old(ctx).owner, amount) is None
                && *final(ctx) == (Deposit { proxy_account: deposited(old(ctx).proxy_account, amount), ..*old(ctx) }),
            Err(e) => deposit_failure(old(ctx).proxy_account, old(ctx).owner, amount) == Some(e)
                && *final(ctx) == *old(ctx),
        },
{
    if ctx.proxy_account.owner != ctx.owner {
        return Err(BettingError::Unauthorized);
    }
    if amount == 0 {
        return Err(BettingError::InvalidBetAmount);
    }
    let balance = match ctx.proxy_account.balance.checked_add(amount) {
        Some(b) => b,
        None => return Err(BettingError::ArithmeticOverflow),
    };
    let total_deposited = match ctx.proxy_account.total_deposited.checked_add(amount) {
        Some(t) => t,
        None => return Err(BettingError::ArithmeticOverflow),
    };
    ctx.proxy_account.balance = balance;
    ctx.proxy_account.total_deposited = total_deposited;
    Ok(())
}

} // verus!
