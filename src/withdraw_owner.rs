use vstd::prelude::*;
use crate::errors::BettingError;
use crate::state::{Market, Pubkey};

verus! {

/// The market record, the currency held at the market's and the authority's
/// addresses, and the reserve that the market's record must keep.
#[derive(Clone, Copy, Debug, PartialEq, Eq, Structural)]
pub struct WithdrawOwner {
    pub market: Market,
    pub market_lamports: u64,
    pub authority: Pubkey,
    pub authority_lamports: u64,
    pub rent_exempt: u64,
}

/// The first check that a fee withdrawal fails, if any.
pub open spec fn withdraw_owner_failure(ctx: WithdrawOwner, amount: u64) -> Option<BettingError> {
    if ctx.market.authority != ctx.authority {
        Some(BettingError::Unauthorized)
    } else if amount == 0 {
        Some(BettingError::InvalidBetAmount)
    } else if ctx.market.total_fees < amount {
        Some(BettingError::InsufficientBalance)
    } else if ctx.market_lamports < amount || ctx.market_lamports - amount < ctx.rent_exempt {
        Some(BettingError::InsufficientBalance)
    } else if ctx.authority_lamports + amount > u64::MAX {
        Some(BettingError::ArithmeticOverflow)
    } else {
        None
    }
}

/// The records after a successful fee withdrawal of `amount`.
pub open spec fn withdrawn_by_owner(ctx: WithdrawOwner, amount: u64) -> WithdrawOwner {
    WithdrawOwner {
        market: Market { total_fees: (ctx.market.total_fees - amount) as u64, ..ctx.market },
        market_lamports: (ctx.market_lamports - amount) as u64,
        authority_lamports: (ctx.authority_lamports + amount) as u64,
        ..ctx
    }
}

/// Moves `amount` of collected fees from the market to its authority,
/// keeping the market's reserve.
pub fn handler(ctx: &mut WithdrawOwner, amount: u64) -> (r: Result<(), BettingError>)
    ensures
        match r {
            Ok(_) => withdraw_owner_failure(*old(ctx), amount) is None
                && *final(ctx) == withdrawn_by_owner(*old(ctx), amount),
            Err(e) => withdraw_owner_failure(*old(ctx), amount) == Some(e) && *final(ctx) == *old(ctx),
        },
{
    if ctx.market.authority != ctx.authority {
        return Err(BettingError::Unauthorized);
    }
    if amount == 0 {
        return Err(BettingError::InvalidBetAmount);
    }
    if ctx.market.total_fees < amount {
        return Err(BettingError::InsufficientBalance);
    }
    let market_lamports = match ctx.market_lamports.checked_sub(amount) {
        Some(l) => l,
        None => return Err(BettingError::InsufficientBalance),
    };
    if market_lamports < ctx.rent_exempt {
        return Err(BettingError::InsufficientBalance);
    }
    let authority_lamports = match ctx.authority_lamports.checked_add(amount) {
        Some(l) => l,
        None => return Err(BettingError::ArithmeticOverflow),
    };
    ctx.market_lamports = market_lamports;
    ctx.authority_lamports = authority_lamports;
    ctx.market.total_fees = ctx.market.total_fees - amount;
    Ok(())
}

} // verus!
