use vstd::prelude::*;
use crate::create_bet::{self, CreateBet};
use crate::create_proxy_account::{self, CreateProxyAccount, Deposit};
use crate::errors::BettingError;
use crate::initialize_market::{self, InitializeMarket};
use crate::model::{
    lemma_wf_account_push, lemma_wf_account_update, lemma_wf_bet_push, lemma_wf_bet_remove,
    account_index, account_of, bet_index, bet_of, create_bet_step, create_proxy_account_step, deposit_step,
    has_account, has_bet, initialize_market_step, ledger_wf, settle_bet_step, withdraw_owner_step,
    withdraw_user_step, LedgerView,
};
use crate::settle_bet::{self, SettleBet};
use crate::state::{Bet, Market, ProxyAccount, Pubkey, SessionToken};
use crate::withdraw_owner::{self, WithdrawOwner};
use crate::withdraw_user::{self, WithdrawUser};

verus! {

/// The records of one market, kept in a keyed store: one escrow record per
/// owner, one bet per owner and timestamp until it is settled.
pub struct Ledger {
    market_key: Pubkey,
    market: Option<Market>,
    accounts: Vec<ProxyAccount>,
    bets: Vec<Bet>,
}

impl View for Ledger {
    type V = LedgerView;

    closed spec fn view(&self) -> LedgerView {
        LedgerView { market_key: self.market_key, market: self.market, accounts: self.accounts@, bets: self.bets@ }
    }
}

proof fn lemma_account_index(s: Seq<ProxyAccount>, i: int)
    requires
        0 <= i < s.len(),
        forall|a: int, b: int| 0 <= a < s.len() && 0 <= b < s.len() && s[a].owner == s[b].owner ==> a == b,
    ensures
        has_account(s, s[i].owner),
        account_index(s, s[i].owner) == i,
{
    assert(0 <= i < s.len() && s[i].owner == s[i].owner);
}

proof fn lemma_bet_index(s: Seq<Bet>, i: int)
    requires
        0 <= i < s.len(),
        forall|a: int, b: int|
            0 <= a < s.len() && 0 <= b < s.len() && s[a].user == s[b].user && s[a].timestamp == s[b].timestamp
                ==> a == b,
    ensures
        has_bet(s, s[i].user, s[i].timestamp),
        bet_index(s, s[i].user, s[i].timestamp) == i,
{
    assert(0 <= i < s.len() && s[i].user == s[i].user && s[i].timestamp == s[i].timestamp);
}

fn find_account(accounts: &Vec<ProxyAccount>, owner: Pubkey) -> (r: Option<usize>)
    ensures
        match r {
            Some(i) => i < accounts@.len() && accounts@[i as int].owner == owner,
            None => !has_account(accounts@, owner),
        },
{
    let mut i: usize = 0;
    while i < accounts.len()
        invariant
            i <= accounts@.len(),
            forall|j: int| 0 <= j < i ==> accounts@[j].owner != owner,
        decreases accounts@.len() - i,
    {
        if accounts[i].owner == owner {
            return Some(i);
        }
        i = i + 1;
    }
    None
}

fn find_bet(bets: &Vec<Bet>, user: Pubkey, timestamp: i64) -> (r: Option<usize>)
    ensures
        match r {
            Some(i) => i < bets@.len() && bets@[i as int].user == user && bets@[i as int].timestamp == timestamp,
            None => !has_bet(bets@, user, timestamp),
        },
{
    let mut i: usize = 0;
    while i < bets.len()
        invariant
            i <= bets@.len(),
            forall|j: int| 0 <= j < i ==> !(bets@[j].user == user && bets@[j].timestamp == timestamp),
        decreases bets@.len() - i,
    {
        if bets[i].user == user && bets[i].timestamp == timestamp {
            return Some(i);
        }
        i = i + 1;
    }
    None
}

impl Ledger {
    /// An empty ledger whose market record will live at `market_key`.
    pub fn new(market_key: Pubkey) -> (r: Ledger)
        ensures
            r@ == (LedgerView { market_key, market: None, accounts: Seq::empty(), bets: Seq::empty() }),
            ledger_wf(r@),
    {
        let r = Ledger { market_key, market: None, accounts: Vec::new(), bets: Vec::new() };
        assert(r@.accounts =~= Seq::<ProxyAccount>::empty());
        assert(r@.bets =~= Seq::<Bet>::empty());
        r
    }

    /// The market record, once created.
    pub fn market(&self) -> (r: Option<Market>)
        ensures
            r == self@.market,
    {
        self.market
    }

    /// The escrow record of `owner`, if there is one.
    pub fn proxy_account(&self, owner: Pubkey) -> (r: Option<ProxyAccount>)
        requires
            ledger_wf(self@),
        ensures
            r == account_of(self@.accounts, owner),
    {
        match find_account(&self.accounts, owner) {
            Some(i) => {
                proof { lemma_account_index(self.accounts@, i as int); }
                Some(self.accounts[i])
            },
            None => None,
        }
    }

    /// The unsettled bet of `user` placed under `timestamp`, if there is one.
    pub fn bet(&self, user: Pubkey, timestamp: i64) -> (r: Option<Bet>)
        requires
            ledger_wf(self@),
        ensures
            r == bet_of(self@.bets, user, timestamp),
    {
        match find_bet(&self.bets, user, timestamp) {
            Some(i) => {
                proof { lemma_bet_index(self.bets@, i as int); }
                Some(self.bets[i])
            },
            None => None,
        }
    }
    /// Creates the market record; its creator becomes the authority.
    pub fn initialize_market(&mut self, authority: Pubkey, bump: u8) -> (r: Result<(), BettingError>)
        requires
            ledger_wf(old(self)@),
        ensures
            (r, final(self)@) == initialize_market_step(old(self)@, authority, bump),
            ledger_wf(final(self)@),
    {
        if self.market.is_some() {
            return Err(BettingError::RecordAlreadyExists);
        }
        self.market = Some(initialize_market::handler(&InitializeMarket { authority, bump }));
        Ok(())
    }

    /// Creates the escrow record of `owner`.
    pub fn create_proxy_account(&mut self, owner: Pubkey, bump: u8) -> (r: Result<(), BettingError>)
        requires
            ledger_wf(old(self)@),
        ensures
            (r, final(self)@) == create_proxy_account_step(old(self)@, owner, bump),
            ledger_wf(final(self)@),
    {
        if find_account(&self.accounts, owner).is_some() {
            return Err(BettingError::RecordAlreadyExists);
        }
        let account = create_proxy_account::handler(&CreateProxyAccount { owner, bump });
        proof {
            assert(ledger_wf(self@) && self@.accounts == self.accounts@);
            lemma_wf_account_push(self@, account);
        }
        self.accounts.push(account);
        Ok(())
    }

    /// Credits `amount` to the escrow record of `owner`.
    pub fn deposit(&mut self, owner: Pubkey, amount: u64) -> (r: Result<(), BettingError>)
        requires
            ledger_wf(old(self)@),
        ensures
            (r, final(self)@) == deposit_step(old(self)@, owner, amount),
            ledger_wf(final(self)@),
    {
        let i = match find_account(&self.accounts, owner) {
            Some(i) => i,
            None => return Err(BettingError::RecordNotFound),
        };
        proof {
            assert(ledger_wf(self@));
            assert(self@.accounts == self.accounts@ && self@.bets == self.bets@);
            lemma_account_index(self.accounts@, i as int);
        }
        let mut ctx = Deposit { proxy_account: self.accounts[i], owner };
        match create_proxy_account::deposit_handler(&mut ctx, amount) {
            Ok(()) => {
                proof { lemma_wf_account_update(self@, i as int, ctx.proxy_account); }
                self.accounts.set(i, ctx.proxy_account);
                Ok(())
            },
            Err(e) => Err(e),
        }
    }
    /// Places a bet from the escrow of `owner`, signed by `signer` (the owner,
    /// or the holder of a session credential of the owner), at time `now`.
    pub fn create_bet(
        &mut self,
        signer: Pubkey,
        owner: Pubkey,
        session_token: Option<SessionToken>,
        timestamp: i64,
        odds: u64,
        expiry_time: i64,
        amount: u64,
        now: i64,
        bump: u8,
    ) -> (r: Result<(), BettingError>)
        requires
            ledger_wf(old(self)@),
        ensures
            (r, final(self)@) == create_bet_step(
                old(self)@,
                signer,
                owner,
                session_token,
                timestamp,
                odds,
                expiry_time,
                amount,
                now,
                bump,
            ),
            ledger_wf(final(self)@),
    {
        let market = match self.market {
            Some(m) => m,
            None => return Err(BettingError::RecordNotFound),
        };
        let i = match find_account(&self.accounts, owner) {
            Some(i) => i,
            None => return Err(BettingError::RecordNotFound),
        };
        proof {
            assert(ledger_wf(self@));
            assert(self@.accounts == self.accounts@ && self@.bets == self.bets@);
            lemma_account_index(self.accounts@, i as int);
        }
        if find_bet(&self.bets, owner, timestamp).is_some() {
            return Err(BettingError::RecordAlreadyExists);
        }
        let mut ctx = CreateBet {
            proxy_account: self.accounts[i],
            proxy_account_key: owner,
            market,
            market_key: self.market_key,
            session_token,
            signer,
            bump,
        };
        match create_bet::handler(&mut ctx, timestamp, odds, expiry_time, amount, now) {
            Ok(bet) => {
                proof {
                    let v = self@;
                    lemma_wf_account_update(v, i as int, ctx.proxy_account);
                    let w = LedgerView { accounts: v.accounts.update(i as int, ctx.proxy_account), ..v };
                    assert(w.accounts[i as int].owner == owner);
                    lemma_wf_bet_push(w, bet);
                }
                self.accounts.set(i, ctx.proxy_account);
                self.bets.push(bet);
                Ok(())
            },
            Err(e) => Err(e),
        }
    }

    /// Settles the bet of `user` placed under `timestamp` as won or lost,
    /// signed by `authority` at time `now`; a settled bet leaves the store.
    pub fn settle_bet(
        &mut self,
        authority: Pubkey,
        user: Pubkey,
        timestamp: i64,
        is_won: bool,
        now: i64,
    ) -> (r: Result<(), BettingError>)
        requires
            ledger_wf(old(self)@),
        ensures
            (r, final(self)@) == settle_bet_step(old(self)@, authority, user, timestamp, is_won, now),
            ledger_wf(final(self)@),
    {
        let market = match self.market {
            Some(m) => m,
            None => return Err(BettingError::RecordNotFound),
        };
        let j = match find_bet(&self.bets, user, timestamp) {
            Some(j) => j,
            None => return Err(BettingError::RecordNotFound),
        };
        proof {
            assert(ledger_wf(self@));
            assert(self@.accounts == self.accounts@ && self@.bets == self.bets@);
            lemma_bet_index(self.bets@, j as int);
        }
        let bet = self.bets[j];
        let i = match find_account(&self.accounts, user) {
            Some(i) => i,
            None => return Err(BettingError::RecordNotFound),
        };
        proof { lemma_account_index(self.accounts@, i as int); }
        let mut ctx = SettleBet { bet, proxy_account: self.accounts[i], proxy_account_key: user, market, authority };
        match settle_bet::handler(&mut ctx, is_won, now) {
            Ok(()) => {
                proof {
                    let v = self@;
                    lemma_wf_account_update(v, i as int, ctx.proxy_account);
                    let w = LedgerView {
                        market: Some(ctx.market),
                        accounts: v.accounts.update(i as int, ctx.proxy_account),
                        ..v
                    };
                    lemma_wf_bet_remove(w, j as int);
                }
                self.accounts.set(i, ctx.proxy_account);
                self.market = Some(ctx.market);
                self.bets.remove(j);
                Ok(())
            },
            Err(e) => Err(e),
        }
    }

    /// Pays `amount` out of the escrow of `owner` to the owner. The caller
    /// gives the currency held at the escrow's and the owner's addresses; on
    /// `Ok` it receives what each then holds, and moves the currency.
    pub fn withdraw_user(
        &mut self,
        owner: Pubkey,
        amount: u64,
        proxy_lamports: u64,
        owner_lamports: u64,
    ) -> (r: Result<(u64, u64), BettingError>)
        requires
            ledger_wf(old(self)@),
        ensures
            ({
                let step = withdraw_user_step(old(self)@, owner, amount, proxy_lamports, owner_lamports);
                &&& final(self)@ == step.1
                &&& step.0 is Ok ==> r == Ok::<(u64, u64), BettingError>(
                    ((proxy_lamports - amount) as u64, (owner_lamports + amount) as u64),
                )
                &&& step.0 is Err ==> r == Err::<(u64, u64), BettingError>(step.0->Err_0)
            }),
            ledger_wf(final(self)@),
    {
        let i = match find_account(&self.accounts, owner) {
            Some(i) => i,
            None => return Err(BettingError::RecordNotFound),
        };
        proof {
            assert(ledger_wf(self@));
            assert(self@.accounts == self.accounts@ && self@.bets == self.bets@);
            lemma_account_index(self.accounts@, i as int);
        }
        let mut ctx = WithdrawUser { proxy_account: self.accounts[i], proxy_lamports, owner, owner_lamports };
        match withdraw_user::handler(&mut ctx, amount) {
            Ok(()) => {
                proof { lemma_wf_account_update(self@, i as int, ctx.proxy_account); }
                self.accounts.set(i, ctx.proxy_account);
                Ok((ctx.proxy_lamports, ctx.owner_lamports))
            },
            Err(e) => Err(e),
        }
    }

    /// Pays `amount` of collected fees to the market's authority. The caller
    /// gives the currency held at the market's and the authority's addresses
    /// and the market's reserve; on `Ok` it receives what each address then
    /// holds, and moves the currency.
    pub fn withdraw_owner(
        &mut self,
        authority: Pubkey,
        amount: u64,
        market_lamports: u64,
        authority_lamports: u64,
        rent_exempt: u64,
    ) -> (r: Result<(u64, u64), BettingError>)
        requires
            ledger_wf(old(self)@),
        ensures
            ({
                let step = withdraw_owner_step(
                    old(self)@,
                    authority,
                    amount,
                    market_lamports,
                    authority_lamports,
                    rent_exempt,
                );
                &&& final(self)@ == step.1
                &&& step.0 is Ok ==> r == Ok::<(u64, u64), BettingError>(
                    ((market_lamports - amount) as u64, (authority_lamports + amount) as u64),
                )
                &&& step.0 is Err ==> r == Err::<(u64, u64), BettingError>(step.0->Err_0)
            }),
            ledger_wf(final(self)@),
    {
        let market = match self.market {
            Some(m) => m,
            None => return Err(BettingError::RecordNotFound),
        };
        let mut ctx = WithdrawOwner { market, market_lamports, authority, authority_lamports, rent_exempt };
        match withdraw_owner::handler(&mut ctx, amount) {
            Ok(()) => {
                self.market = Some(ctx.market);
                Ok((ctx.market_lamports, ctx.authority_lamports))
            },
            Err(e) => Err(e),
        }
    }
}

} // verus!
