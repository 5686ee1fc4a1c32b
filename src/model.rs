use vstd::prelude::*;
use crate::create_bet::{create_bet_failure, new_bet, staked, CreateBet};
use crate::create_proxy_account::{deposit_failure, deposited};
use crate::errors::BettingError;
use crate::settle_bet::{settle_failure, settled, SettleBet};
use crate::state::{Bet, Market, ProxyAccount, Pubkey, SessionToken};
use crate::sums::sum_of;
use crate::withdraw_owner::{withdraw_owner_failure, withdrawn_by_owner, WithdrawOwner};
use crate::withdraw_user::{withdraw_user_failure, withdrawn_by_user, WithdrawUser};

verus! {

/// The state of a ledger: the market record if it was created, the escrow
/// records keyed by owner, and the unsettled bets keyed by owner and timestamp.
/// An escrow's key in the store is its owner's identity, so a bet's
/// `proxy_account` names its escrow by the owner.
pub struct LedgerView {
    pub market_key: Pubkey,
    pub market: Option<Market>,
    pub accounts: Seq<ProxyAccount>,
    pub bets: Seq<Bet>,
}

/// What an operation returns, and the state after it.
pub type Step = (Result<(), BettingError>, LedgerView);

/// Whether an escrow record of `owner` is stored.
pub open spec fn has_account(s: Seq<ProxyAccount>, owner: Pubkey) -> bool {
    exists|i: int| 0 <= i < s.len() && s[i].owner == owner
}

/// Where the escrow record of `owner` is stored, when it is.
pub open spec fn account_index(s: Seq<ProxyAccount>, owner: Pubkey) -> int {
    choose|i: int| 0 <= i < s.len() && s[i].owner == owner
}

/// The escrow record of `owner`, if there is one.
pub open spec fn account_of(s: Seq<ProxyAccount>, owner: Pubkey) -> Option<ProxyAccount> {
    if has_account(s, owner) {
        Some(s[account_index(s, owner)])
    } else {
        None
    }
}

/// Whether an unsettled bet of `user` under `timestamp` is stored.
pub open spec fn has_bet(s: Seq<Bet>, user: Pubkey, timestamp: i64) -> bool {
    exists|i: int| 0 <= i < s.len() && s[i].user == user && s[i].timestamp == timestamp
}

/// Where the bet of `user` under `timestamp` is stored, when it is.
pub open spec fn bet_index(s: Seq<Bet>, user: Pubkey, timestamp: i64) -> int {
    choose|i: int| 0 <= i < s.len() && s[i].user == user && s[i].timestamp == timestamp
}

/// The unsettled bet of `user` placed under `timestamp`, if there is one.
pub open spec fn bet_of(s: Seq<Bet>, user: Pubkey, timestamp: i64) -> Option<Bet> {
    if has_bet(s, user, timestamp) {
        Some(s[bet_index(s, user, timestamp)])
    } else {
        None
    }
}

/// What a stored bet holds from its creation: it is active, draws on the
/// escrow of its owner, belongs to this market, and has a positive stake and
/// positive odds.
pub open spec fn stored_bet_wf(v: LedgerView, b: Bet) -> bool {
    &&& b.is_active
    &&& b.proxy_account == b.user
    &&& b.market == v.market_key
    &&& b.amount > 0
    &&& b.odds > 0
}

/// Keys are unique, every stored bet holds what its creation gave it, and
/// the market and the escrow of every stored bet exist.
pub open spec fn ledger_wf(v: LedgerView) -> bool {
    &&& forall|i: int, j: int|
        0 <= i < v.accounts.len() && 0 <= j < v.accounts.len() && v.accounts[i].owner == v.accounts[j].owner
            ==> i == j
    &&& forall|i: int, j: int|
        0 <= i < v.bets.len() && 0 <= j < v.bets.len() && v.bets[i].user == v.bets[j].user
            && v.bets[i].timestamp == v.bets[j].timestamp ==> i == j
    &&& forall|i: int| 0 <= i < v.bets.len() ==> stored_bet_wf(v, #[trigger] v.bets[i])
    &&& forall|i: int| 0 <= i < v.bets.len() ==> has_account(v.accounts, #[trigger] v.bets[i].user)
    &&& v.bets.len() > 0 ==> v.market is Some
}

/// Replacing an escrow record by one of the same owner keeps the ledger
/// well formed.
pub proof fn lemma_wf_account_update(v: LedgerView, i: int, a: ProxyAccount)
    requires
        ledger_wf(v),
        0 <= i < v.accounts.len(),
        a.owner == v.accounts[i].owner,
    ensures
        ledger_wf(LedgerView { accounts: v.accounts.update(i, a), ..v }),
{
    let w = LedgerView { accounts: v.accounts.update(i, a), ..v };
    assert forall|k: int| 0 <= k < w.bets.len() implies has_account(w.accounts, #[trigger] w.bets[k].user) by {
        let j = account_index(v.accounts, v.bets[k].user);
        assert(w.accounts[j].owner == v.bets[k].user);
    }
}

/// Adding the escrow record of a new owner keeps the ledger well formed.
pub proof fn lemma_wf_account_push(v: LedgerView, a: ProxyAccount)
    requires
        ledger_wf(v),
        !has_account(v.accounts, a.owner),
    ensures
        ledger_wf(LedgerView { accounts: v.accounts.push(a), ..v }),
{
    let w = LedgerView { accounts: v.accounts.push(a), ..v };
    assert forall|k: int| 0 <= k < w.bets.len() implies has_account(w.accounts, #[trigger] w.bets[k].user) by {
        let j = account_index(v.accounts, v.bets[k].user);
        assert(w.accounts[j].owner == v.bets[k].user);
    }
}

/// Storing a new bet under a free key, with what creation gives it, keeps
/// the ledger well formed.
pub proof fn lemma_wf_bet_push(v: LedgerView, b: Bet)
    requires
        ledger_wf(v),
        !has_bet(v.bets, b.user, b.timestamp),
        stored_bet_wf(v, b),
        has_account(v.accounts, b.user),
        v.market is Some,
    ensures
        ledger_wf(LedgerView { bets: v.bets.push(b), ..v }),
{
    let w = LedgerView { bets: v.bets.push(b), ..v };
    assert forall|k: int| 0 <= k < w.bets.len() implies has_account(w.accounts, #[trigger] w.bets[k].user) by {
        if k < v.bets.len() {
            assert(w.bets[k] == v.bets[k]);
        }
    }
    assert forall|k: int| 0 <= k < w.bets.len() implies stored_bet_wf(w, #[trigger] w.bets[k]) by {
        if k < v.bets.len() {
            assert(w.bets[k] == v.bets[k]);
        }
    }
    assert forall|p: int, q: int|
        0 <= p < w.bets.len() && 0 <= q < w.bets.len() && w.bets[p].user == w.bets[q].user
            && w.bets[p].timestamp == w.bets[q].timestamp implies p == q by {
        if p < v.bets.len() && q == v.bets.len() {
            assert(v.bets[p].user == b.user && v.bets[p].timestamp == b.timestamp);
        }
        if q < v.bets.len() && p == v.bets.len() {
            assert(v.bets[q].user == b.user && v.bets[q].timestamp == b.timestamp);
        }
    }
}

/// Removing a stored bet keeps the ledger well formed.
pub proof fn lemma_wf_bet_remove(v: LedgerView, j: int)
    requires
        ledger_wf(v),
        0 <= j < v.bets.len(),
    ensures
        ledger_wf(LedgerView { bets: v.bets.remove(j), ..v }),
{
    let w = LedgerView { bets: v.bets.remove(j), ..v };
    assert forall|k: int| 0 <= k < w.bets.len() implies w.bets[k] == v.bets[if k < j { k } else { k + 1 }] by {}
    assert forall|k: int| 0 <= k < w.bets.len() implies has_account(w.accounts, #[trigger] w.bets[k].user) by {
        let m = if k < j { k } else { k + 1 };
        assert(has_account(v.accounts, v.bets[m].user));
    }
    assert forall|k: int| 0 <= k < w.bets.len() implies stored_bet_wf(w, #[trigger] w.bets[k]) by {
        let m = if k < j { k } else { k + 1 };
        assert(stored_bet_wf(v, v.bets[m]));
    }
    assert forall|p: int, q: int|
        0 <= p < w.bets.len() && 0 <= q < w.bets.len() && w.bets[p].user == w.bets[q].user
            && w.bets[p].timestamp == w.bets[q].timestamp implies p == q by {
        let mp = if p < j { p } else { p + 1 };
        let mq = if q < j { q } else { q + 1 };
        assert(v.bets[mp].user == v.bets[mq].user && v.bets[mp].timestamp == v.bets[mq].timestamp);
    }
}

/// The currency the ledger holds on behalf of others: escrow balances, the
/// stakes of unsettled bets, and the market's collected fees.
pub open spec fn total(v: LedgerView) -> int {
    sum_of(v.accounts.map_values(|a: ProxyAccount| a.balance as int))
        + sum_of(v.bets.map_values(|b: Bet| b.amount as int))
        + match v.market {
        Some(m) => m.total_fees as int,
        None => 0,
    }
}

/// A failed operation: the error, and the state as it was.
pub open spec fn unchanged(v: LedgerView, e: BettingError) -> Step {
    (Err(e), v)
}

/// Creating the market, which can happen once.
pub open spec fn initialize_market_step(v: LedgerView, authority: Pubkey, bump: u8) -> Step {
    if v.market is Some {
        unchanged(v, BettingError::RecordAlreadyExists)
    } else {
        (Ok(()), LedgerView {
            market: Some(Market { authority, total_volume: 0, total_fees: 0, is_active: true, bump }),
            ..v
        })
    }
}

/// Creating the escrow record of `owner`, which can happen once per owner.
pub open spec fn create_proxy_account_step(v: LedgerView, owner: Pubkey, bump: u8) -> Step {
    if has_account(v.accounts, owner) {
        unchanged(v, BettingError::RecordAlreadyExists)
    } else {
        (Ok(()), LedgerView {
            accounts: v.accounts.push(
                ProxyAccount { owner, balance: 0, total_bets: 0, total_deposited: 0, total_withdrawn: 0, bump },
            ),
            ..v
        })
    }
}

/// A deposit into the escrow record of `owner`.
pub open spec fn deposit_step(v: LedgerView, owner: Pubkey, amount: u64) -> Step {
    if !has_account(v.accounts, owner) {
        unchanged(v, BettingError::RecordNotFound)
    } else {
        let i = account_index(v.accounts, owner);
        match deposit_failure(v.accounts[i], owner, amount) {
            Some(e) => unchanged(v, e),
            None => (Ok(()), LedgerView { accounts: v.accounts.update(i, deposited(v.accounts[i], amount)), ..v }),
        }
    }
}

/// The context a new bet of `owner`'s escrow is placed in.
pub open spec fn create_bet_context(
    v: LedgerView,
    signer: Pubkey,
    owner: Pubkey,
    session_token: Option<SessionToken>,
    bump: u8,
) -> CreateBet {
    CreateBet {
        proxy_account: v.accounts[account_index(v.accounts, owner)],
        proxy_account_key: owner,
        market: v.market->Some_0,
        market_key: v.market_key,
        session_token,
        signer,
        bump,
    }
}

/// Placing a bet from the escrow of `owner`: the market and the escrow must
/// exist and no unsettled bet of `owner` may stand under `timestamp`.
pub open spec fn create_bet_step(
    v: LedgerView,
    signer: Pubkey,
    owner: Pubkey,
    session_token: Option<SessionToken>,
    timestamp: i64,
    odds: u64,
    expiry_time: i64,
    amount: u64,
    now: i64,
    bump: u8,
) -> Step {
    if v.market is None || !has_account(v.accounts, owner) {
        unchanged(v, BettingError::RecordNotFound)
    } else if has_bet(v.bets, owner, timestamp) {
        unchanged(v, BettingError::RecordAlreadyExists)
    } else {
        let ctx = create_bet_context(v, signer, owner, session_token, bump);
        match create_bet_failure(ctx, odds, expiry_time, amount, now) {
            Some(e) => unchanged(v, e),
            None => (Ok(()), LedgerView {
                accounts: v.accounts.update(account_index(v.accounts, owner), staked(ctx.proxy_account, amount)),
                bets: v.bets.push(new_bet(ctx, timestamp, odds, expiry_time, amount)),
                ..v
            }),
        }
    }
}

/// The context in which `authority` settles the bet of `user` placed under
/// `timestamp`.
pub open spec fn settle_context(v: LedgerView, authority: Pubkey, user: Pubkey, timestamp: i64) -> SettleBet {
    let bet = v.bets[bet_index(v.bets, user, timestamp)];
    SettleBet {
        bet,
        proxy_account: v.accounts[account_index(v.accounts, bet.user)],
        proxy_account_key: bet.user,
        market: v.market->Some_0,
        authority,
    }
}

/// Settling a stored bet against the escrow it draws on; a settled bet is
/// removed.
pub open spec fn settle_bet_step(
    v: LedgerView,
    authority: Pubkey,
    user: Pubkey,
    timestamp: i64,
    is_won: bool,
    now: i64,
) -> Step {
    if v.market is None || !has_bet(v.bets, user, timestamp)
        || !has_account(v.accounts, user) {
        unchanged(v, BettingError::RecordNotFound)
    } else {
        let ctx = settle_context(v, authority, user, timestamp);
        match settle_failure(ctx, is_won, now) {
            Some(e) => unchanged(v, e),
            None => {
                let after = settled(ctx, is_won);
                (Ok(()), LedgerView {
                    market: Some(after.market),
                    accounts: v.accounts.update(account_index(v.accounts, user), after.proxy_account),
                    bets: v.bets.remove(bet_index(v.bets, user, timestamp)),
                    ..v
                })
            },
        }
    }
}

/// The context of a withdrawal from the escrow of `owner`.
pub open spec fn withdraw_user_context(
    v: LedgerView,
    owner: Pubkey,
    proxy_lamports: u64,
    owner_lamports: u64,
) -> WithdrawUser {
    WithdrawUser { proxy_account: v.accounts[account_index(v.accounts, owner)], proxy_lamports, owner, owner_lamports }
}

/// A withdrawal by `owner` from its escrow record.
pub open spec fn withdraw_user_step(
    v: LedgerView,
    owner: Pubkey,
    amount: u64,
    proxy_lamports: u64,
    owner_lamports: u64,
) -> Step {
    if !has_account(v.accounts, owner) {
        unchanged(v, BettingError::RecordNotFound)
    } else {
        let ctx = withdraw_user_context(v, owner, proxy_lamports, owner_lamports);
        match withdraw_user_failure(ctx, amount) {
            Some(e) => unchanged(v, e),
            None => (Ok(()), LedgerView {
                accounts: v.accounts.update(
                    account_index(v.accounts, owner),
                    withdrawn_by_user(ctx, amount).proxy_account,
                ),
                ..v
            }),
        }
    }
}

/// The context of a fee withdrawal signed by `authority`.
pub open spec fn withdraw_owner_context(
    v: LedgerView,
    authority: Pubkey,
    market_lamports: u64,
    authority_lamports: u64,
    rent_exempt: u64,
) -> WithdrawOwner {
    WithdrawOwner { market: v.market->Some_0, market_lamports, authority, authority_lamports, rent_exempt }
}

/// A withdrawal of collected fees signed by `authority`.
pub open spec fn withdraw_owner_step(
    v: LedgerView,
    authority: Pubkey,
    amount: u64,
    market_lamports: u64,
    authority_lamports: u64,
    rent_exempt: u64,
) -> Step {
    if v.market is None {
        unchanged(v, BettingError::RecordNotFound)
    } else {
        let ctx = withdraw_owner_context(v, authority, market_lamports, authority_lamports, rent_exempt);
        match withdraw_owner_failure(ctx, amount) {
            Some(e) => unchanged(v, e),
            None => (Ok(()), LedgerView { market: Some(withdrawn_by_owner(ctx, amount).market), ..v }),
        }
    }
}

} // verus!
