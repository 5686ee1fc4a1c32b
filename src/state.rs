use vstd::prelude::*;
use crate::errors::BettingError;

verus! {

/// A 32-byte identity, held as four little-endian 64-bit words.
#[derive(Clone, Copy, Debug, PartialEq, Eq, Structural)]
pub struct Pubkey {
    pub w0: u64,
    pub w1: u64,
    pub w2: u64,
    pub w3: u64,
}

impl Pubkey {
    pub fn new(w0: u64, w1: u64, w2: u64, w3: u64) -> (r: Pubkey)
        ensures
            r == (Pubkey { w0, w1, w2, w3 }),
    {
        Pubkey { w0, w1, w2, w3 }
    }
}

/// The escrow record of one owner.
#[derive(Clone, Copy, Debug, PartialEq, Eq, Structural)]
pub struct ProxyAccount {
    pub owner: Pubkey,
    pub balance: u64,
    pub total_bets: u64,
    pub total_deposited: u64,
    pub total_withdrawn: u64,
    pub bump: u8,
}

/// The market record: who settles bets and withdraws fees, and what was settled.
#[derive(Clone, Copy, Debug, PartialEq, Eq, Structural)]
pub struct Market {
    pub authority: Pubkey,
    pub total_volume: u64,
    pub total_fees: u64,
    pub is_active: bool,
    pub bump: u8,
}

/// One wager, its stake already taken from the owner's escrow.
#[derive(Clone, Copy, Debug, PartialEq, Eq, Structural)]
pub struct Bet {
    pub user: Pubkey,
    pub market: Pubkey,
    pub proxy_account: Pubkey,
    pub timestamp: i64,
    pub odds: u64,
    pub expiry_time: i64,
    pub amount: u64,
    pub is_active: bool,
    pub bump: u8,
}

/// A session credential: it lets `session_signer` act for `authority`
/// strictly before `valid_until`.
#[derive(Clone, Copy, Debug, PartialEq, Eq, Structural)]
pub struct SessionToken {
    pub authority: Pubkey,
    pub session_signer: Pubkey,
    pub valid_until: i64,
}

impl ProxyAccount {
    /// A fresh escrow record of `owner`: every counter at zero.
    pub fn new(owner: Pubkey, bump: u8) -> (r: ProxyAccount)
        ensures
            r == (ProxyAccount {
                owner,
                balance: 0,
                total_bets: 0,
                total_deposited: 0,
                total_withdrawn: 0,
                bump,
            }),
    {
        ProxyAccount { owner, balance: 0, total_bets: 0, total_deposited: 0, total_withdrawn: 0, bump }
    }

    /// Credits `amount` to the balance, failing on overflow.
    pub fn add_balance(&mut self, amount: u64) -> (r: Result<(), BettingError>)
        ensures
            old(self).balance + amount <= u64::MAX ==> r is Ok && *final(self) == (ProxyAccount {
                balance: (old(self).balance + amount) as u64,
                ..*old(self)
            }),
            old(self).balance + amount > u64::MAX ==> r == Err::<(), _>(BettingError::ArithmeticOverflow)
                && *final(self) == *old(self),
    {
        match self.balance.checked_add(amount) {
            Some(b) => {
                self.balance = b;
                Ok(())
            },
            None => Err(BettingError::ArithmeticOverflow),
        }
    }

    /// Adds `amount` to the deposit counter, failing on overflow.
    pub fn record_deposit(&mut self, amount: u64) -> (r: Result<(), BettingError>)
        ensures
            old(self).total_deposited + amount <= u64::MAX ==> r is Ok && *final(self) == (ProxyAccount {
                total_deposited: (old(self).total_deposited + amount) as u64,
                ..*old(self)
            }),
            old(self).total_deposited + amount > u64::MAX ==> r == Err::<(), _>(BettingError::ArithmeticOverflow)
                && *final(self) == *old(self),
    {
        match self.total_deposited.checked_add(amount) {
            Some(t) => {
                self.total_deposited = t;
                Ok(())
            },
            None => Err(BettingError::ArithmeticOverflow),
        }
    }
}

} // verus!
