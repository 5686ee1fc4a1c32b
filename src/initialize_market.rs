use vstd::prelude::*;
use crate::state::{Market, Pubkey};

verus! {

/// Who creates the market, and the address nonce it gets.
#[derive(Clone, Copy, Debug, PartialEq, Eq, Structural)]
pub struct InitializeMarket {
    pub authority: Pubkey,
    pub bump: u8,
}

/// Creates the market: its creator becomes the authority, the counters are
/// zero and it takes bets.
pub fn handler(ctx: &InitializeMarket) -> (r: Market)
    ensures
        r == (Market { authority: ctx.authority, total_volume: 0, total_fees: 0, is_active: true, bump: ctx.bump }),
{
    Market { authority: ctx.authority, total_volume: 0, total_fees: 0, is_active: true, bump: ctx.bump }
}

} // verus!
