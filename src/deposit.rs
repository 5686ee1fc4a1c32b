use vstd::prelude::*;
use crate::create_proxy_account::{deposit_failure, deposited};
use crate::errors::BettingError;
use crate::state::{ProxyAccount, Pubkey};

verus! {

/// The escrow record that a deposit credits, and the user who pays it in.
#[derive(Clone, Copy, Debug, PartialEq, Eq, Structural)]
pub struct Deposit {
    pub proxy_account: ProxyAccount,
    pub user: Pubkey,
}

/// Credits `amount` to the user's escrow record through the record's own
/// balance and deposit counters.
pub fn deposit(ctx: &mut Deposit, amount: u64) -> (r: Result<(), BettingError>)
    ensures
        match r {
            Ok(_) => deposit_failure(old(ctx).proxy_account, old(ctx).user, amount) is None
                && *final(ctx) == (Deposit { proxy_account: deposited(old(ctx).proxy_account, amount), ..*old(ctx) }),
            Err(e) => deposit_failure(old(ctx).proxy_account, old(ctx).user, amount) == Some(e)
                && *final(ctx) == *old(ctx),
        },
{
    if ctx.proxy_account.owner != ctx.user {
        return Err(BettingError::Unauthorized);
    }
    if amount == 0 {
        return Err(BettingError::InvalidBetAmount);
    }
    if ctx.proxy_account.total_deposited.checked_add(amount).is_none() {
        return Err(BettingError::ArithmeticOverflow);
    }
    let r = ctx.proxy_account.add_balance(amount);
    if r.is_err() {
        return r;
    }
    ctx.proxy_account.record_deposit(amount)
}

} // verus!
