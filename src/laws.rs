use vstd::prelude::*;
use crate::model::{
    account_index, bet_index, bet_of, create_bet_step, create_proxy_account_step, deposit_step,
    has_bet, initialize_market_step, ledger_wf, settle_bet_step, settle_context, total,
    withdraw_owner_step, withdraw_user_step, LedgerView, Step, stored_bet_wf, has_account,
};
use crate::create_proxy_account::deposit_failure;
use crate::errors::BettingError;
use crate::settle_bet::{settle_failure, settled, winnings, SettleBet};
use crate::withdraw_owner::{withdraw_owner_failure, WithdrawOwner};
use crate::withdraw_user::{withdraw_user_failure, WithdrawUser};
use crate::state::{Bet, ProxyAccount, Pubkey, SessionToken};
use crate::sums::{sum_of, lemma_sum_push, lemma_sum_remove, lemma_sum_update};

verus! {

proof fn lemma_account_update(s: Seq<ProxyAccount>, i: int, a: ProxyAccount)
    requires
        0 <= i < s.len(),
    ensures
        sum_of(s.update(i, a).map_values(|x: ProxyAccount| x.balance as int))
            == sum_of(s.map_values(|x: ProxyAccount| x.balance as int)) - s[i].balance + a.balance,
{
    assert(s.update(i, a).map_values(|x: ProxyAccount| x.balance as int)
        =~= s.map_values(|x: ProxyAccount| x.balance as int).update(i, a.balance as int));
    lemma_sum_update(s.map_values(|x: ProxyAccount| x.balance as int), i, a.balance as int);
}

/// Creating the market or an escrow record moves no currency, and a failed
/// creation changes nothing.
pub proof fn lemma_creation_conserves(v: LedgerView, who: Pubkey, bump: u8)
    ensures
        initialize_market_step(v, who, bump).0 is Ok ==> total(initialize_market_step(v, who, bump).1) == total(v),
        initialize_market_step(v, who, bump).0 is Err ==> initialize_market_step(v, who, bump).1 == v,
        create_proxy_account_step(v, who, bump).0 is Ok ==> total(create_proxy_account_step(v, who, bump).1)
            == total(v),
        create_proxy_account_step(v, who, bump).0 is Err ==> create_proxy_account_step(v, who, bump).1 == v,
{
    let s = v.accounts;
    let a = ProxyAccount { owner: who, balance: 0, total_bets: 0, total_deposited: 0, total_withdrawn: 0, bump };
    assert(s.push(a).map_values(|x: ProxyAccount| x.balance as int)
        =~= s.map_values(|x: ProxyAccount| x.balance as int).push(0));
    lemma_sum_push(s.map_values(|x: ProxyAccount| x.balance as int), 0);
}

/// A deposit adds exactly its amount to the currency the ledger holds; a
/// failed deposit changes nothing.
pub proof fn lemma_deposit_conserves(v: LedgerView, owner: Pubkey, amount: u64)
    ensures
        deposit_step(v, owner, amount).0 is Ok ==> total(deposit_step(v, owner, amount).1) == total(v) + amount,
        deposit_step(v, owner, amount).0 is Err ==> deposit_step(v, owner, amount).1 == v,
{
    if deposit_step(v, owner, amount).0 is Ok {
        let i = account_index(v.accounts, owner);
        let a = deposit_step(v, owner, amount).1.accounts[i];
        lemma_account_update(v.accounts, i, a);
    }
}

/// A withdrawal by an owner takes exactly its amount off the currency the
/// ledger holds; a failed one changes nothing.
pub proof fn lemma_withdraw_user_conserves(
    v: LedgerView,
    owner: Pubkey,
    amount: u64,
    proxy_lamports: u64,
    owner_lamports: u64,
)
    ensures
        withdraw_user_step(v, owner, amount, proxy_lamports, owner_lamports).0 is Ok ==> total(
            withdraw_user_step(v, owner, amount, proxy_lamports, owner_lamports).1,
        ) == total(v) - amount,
        withdraw_user_step(v, owner, amount, proxy_lamports, owner_lamports).0 is Err ==> withdraw_user_step(
            v,
            owner,
            amount,
            proxy_lamports,
            owner_lamports,
        ).1 == v,
{
    if withdraw_user_step(v, owner, amount, proxy_lamports, owner_lamports).0 is Ok {
        let i = account_index(v.accounts, owner);
        let a = withdraw_user_step(v, owner, amount, proxy_lamports, owner_lamports).1.accounts[i];
        lemma_account_update(v.accounts, i, a);
    }
}

/// A fee withdrawal by the authority takes exactly its amount off the
/// currency the ledger holds; a failed one changes nothing.
pub proof fn lemma_withdraw_owner_conserves(
    v: LedgerView,
    authority: Pubkey,
    amount: u64,
    market_lamports: u64,
    authority_lamports: u64,
    rent_exempt: u64,
)
    ensures
        withdraw_owner_step(v, authority, amount, market_lamports, authority_lamports, rent_exempt).0 is Ok
            ==> total(withdraw_owner_step(v, authority, amount, market_lamports, authority_lamports, rent_exempt).1)
            == total(v) - amount,
        withdraw_owner_step(v, authority, amount, market_lamports, authority_lamports, rent_exempt).0 is Err
            ==> withdraw_owner_step(v, authority, amount, market_lamports, authority_lamports, rent_exempt).1 == v,
{
}

proof fn lemma_stakes_push(s: Seq<Bet>, b: Bet)
    ensures
        sum_of(s.push(b).map_values(|x: Bet| x.amount as int)) == sum_of(s.map_values(|x: Bet| x.amount as int))
            + b.amount,
{
    assert(s.push(b).map_values(|x: Bet| x.amount as int) =~= s.map_values(|x: Bet| x.amount as int).push(
        b.amount as int,
    ));
    lemma_sum_push(s.map_values(|x: Bet| x.amount as int), b.amount as int);
}

proof fn lemma_stakes_remove(s: Seq<Bet>, j: int)
    requires
        0 <= j < s.len(),
    ensures
        sum_of(s.remove(j).map_values(|x: Bet| x.amount as int)) == sum_of(s.map_values(|x: Bet| x.amount as int))
            - s[j].amount,
{
    assert(s.remove(j).map_values(|x: Bet| x.amount as int) =~= s.map_values(|x: Bet| x.amount as int).remove(j));
    lemma_sum_remove(s.map_values(|x: Bet| x.amount as int), j);
}

/// Placing a bet moves its stake from the escrow balance into the bet and so
/// leaves the currency the ledger holds unchanged; a failed one changes nothing.
pub proof fn lemma_create_bet_conserves(
    v: LedgerView,
    signer: Pubkey,
    owner: Pubkey,
    session_token: Option<SessionToken>,
    timestamp: i64,
    odds: u64,
    expiry_time: i64,
    amount: u64,
    now: i64,
    bump: u8,
)
    ensures
        ({
            let step = create_bet_step(v, signer, owner, session_token, timestamp, odds, expiry_time, amount, now, bump);
            &&& step.0 is Ok ==> total(step.1) == total(v)
            &&& step.0 is Err ==> step.1 == v
        }),
{
    let step = create_bet_step(v, signer, owner, session_token, timestamp, odds, expiry_time, amount, now, bump);
    if step.0 is Ok {
        let i = account_index(v.accounts, owner);
        lemma_account_update(v.accounts, i, step.1.accounts[i]);
        lemma_stakes_push(v.bets, step.1.bets.last());
        assert(step.1.bets =~= v.bets.push(step.1.bets.last()));
    }
}

/// Settling a bet releases its stake: a won bet pays `floor(amount * odds / 100)`
/// into the escrow, a lost one adds the stake to the market's fees. Nothing
/// else changes the currency the ledger holds, and a failed settlement changes
/// nothing.
pub proof fn lemma_settle_bet_conserves(
    v: LedgerView,
    authority: Pubkey,
    user: Pubkey,
    timestamp: i64,
    is_won: bool,
    now: i64,
)
    ensures
        ({
            let step = settle_bet_step(v, authority, user, timestamp, is_won, now);
            let bet = v.bets[bet_index(v.bets, user, timestamp)];
            &&& step.0 is Ok && is_won ==> total(step.1) == total(v) - bet.amount + winnings(bet.amount, bet.odds)
            &&& step.0 is Ok && !is_won ==> total(step.1) == total(v)
            &&& step.0 is Err ==> step.1 == v
        }),
{
    let step = settle_bet_step(v, authority, user, timestamp, is_won, now);
    if step.0 is Ok {
        let j = bet_index(v.bets, user, timestamp);
        let ctx = settle_context(v, authority, user, timestamp);
        let i = account_index(v.accounts, user);
        lemma_account_update(v.accounts, i, step.1.accounts[i]);
        lemma_stakes_remove(v.bets, j);
    }
}

/// A bet is settled at most once: a successful settlement turns an active bet
/// inactive, and any settlement of the result fails with `BetNotActive`.
pub proof fn lemma_settle_once(ctx: SettleBet, is_won: bool, now: i64, again_won: bool, again_now: i64)
    requires
        settle_failure(ctx, is_won, now) is None,
    ensures
        ctx.bet.is_active,
        !settled(ctx, is_won).bet.is_active,
        settle_failure(settled(ctx, is_won), again_won, again_now) == Some(BettingError::BetNotActive),
{
}

/// Whether settling `ctx` as `is_won` keeps every counter within 64 bits.
pub open spec fn settle_fits(ctx: SettleBet, is_won: bool) -> bool {
    let amount = ctx.bet.amount;
    &&& is_won ==> amount as int * ctx.bet.odds as int <= u64::MAX
    &&& is_won ==> ctx.proxy_account.balance + winnings(amount, ctx.bet.odds) <= u64::MAX
    &&& !is_won ==> ctx.market.total_fees + amount <= u64::MAX
    &&& ctx.market.total_volume + amount <= u64::MAX
}

/// Of an active bet settled by the market's authority against the bet's own
/// escrow: before the expiry time settlement fails with `BetNotExpired`; at or
/// after it, settlement succeeds whenever the counters stay within 64 bits.
pub proof fn lemma_settle_expiry(ctx: SettleBet, is_won: bool, now: i64)
    requires
        ctx.bet.is_active,
        ctx.proxy_account.owner == ctx.bet.user,
        ctx.proxy_account_key == ctx.bet.proxy_account,
        ctx.market.authority == ctx.authority,
    ensures
        now < ctx.bet.expiry_time ==> settle_failure(ctx, is_won, now) == Some(BettingError::BetNotExpired),
        now >= ctx.bet.expiry_time && settle_fits(ctx, is_won) ==> settle_failure(ctx, is_won, now) is None,
{
}

/// A deposit or a withdrawal of zero by the record's owner or the market's
/// authority always fails with `InvalidBetAmount`.
pub proof fn lemma_zero_amount(p: ProxyAccount, user: WithdrawUser, owner: WithdrawOwner)
    requires
        user.proxy_account.owner == user.owner,
        owner.market.authority == owner.authority,
    ensures
        deposit_failure(p, p.owner, 0) == Some(BettingError::InvalidBetAmount),
        withdraw_user_failure(user, 0) == Some(BettingError::InvalidBetAmount),
        withdraw_owner_failure(owner, 0) == Some(BettingError::InvalidBetAmount),
{
}

/// Settling an active bet as anyone but the market's authority, or
/// withdrawing as anyone but the record's owner or the market's authority,
/// fails with `Unauthorized` whatever the amount.
pub proof fn lemma_unauthorized(
    ctx: SettleBet,
    is_won: bool,
    now: i64,
    user: WithdrawUser,
    owner: WithdrawOwner,
    amount: u64,
)
    requires
        ctx.bet.is_active,
    ensures
        ctx.market.authority != ctx.authority ==> settle_failure(ctx, is_won, now) == Some(
            BettingError::Unauthorized,
        ),
        user.proxy_account.owner != user.owner ==> withdraw_user_failure(user, amount) == Some(
            BettingError::Unauthorized,
        ),
        owner.market.authority != owner.authority ==> withdraw_owner_failure(owner, amount) == Some(
            BettingError::Unauthorized,
        ),
{
}

/// No two bets share an owner and a timestamp.
pub open spec fn bets_unique(s: Seq<Bet>) -> bool {
    forall|a: int, b: int|
        0 <= a < s.len() && 0 <= b < s.len() && s[a].user == s[b].user && s[a].timestamp == s[b].timestamp ==> a
            == b
}

proof fn lemma_bets_remove(s: Seq<Bet>, j: int, user: Pubkey, timestamp: i64)
    requires
        0 <= j < s.len(),
        bets_unique(s),
    ensures
        s[j].user == user && s[j].timestamp == timestamp ==> !has_bet(s.remove(j), user, timestamp),
        !(s[j].user == user && s[j].timestamp == timestamp) ==> bet_of(s.remove(j), user, timestamp) == bet_of(
            s,
            user,
            timestamp,
        ),
{
    let r = s.remove(j);
    assert forall|k: int| 0 <= k < r.len() implies r[k] == s[if k < j { k } else { k + 1 }] by {}
    if has_bet(r, user, timestamp) {
        let k2 = bet_index(r, user, timestamp);
        let m = if k2 < j { k2 } else { k2 + 1 };
        assert(s[m].user == user && s[m].timestamp == timestamp);
        if !(s[j].user == user && s[j].timestamp == timestamp) {
            let k = bet_index(s, user, timestamp);
            assert(k == m);
        }
    }
    if !(s[j].user == user && s[j].timestamp == timestamp) && has_bet(s, user, timestamp) {
        let k = bet_index(s, user, timestamp);
        let k1 = if k < j { k } else { k - 1 };
        assert(r[k1].user == user && r[k1].timestamp == timestamp);
    }
}

proof fn lemma_bets_push(s: Seq<Bet>, b: Bet, user: Pubkey, timestamp: i64)
    requires
        bets_unique(s),
        !(b.user == user && b.timestamp == timestamp),
    ensures
        bet_of(s.push(b), user, timestamp) == bet_of(s, user, timestamp),
{
    let r = s.push(b);
    if has_bet(s, user, timestamp) {
        let k = bet_index(s, user, timestamp);
        assert(r[k] == s[k]);
    }
    if has_bet(r, user, timestamp) {
        let k = bet_index(r, user, timestamp);
        assert(k < s.len());
        assert(s[k] == r[k]);
        assert(has_bet(s, user, timestamp));
        assert(bet_index(s, user, timestamp) == k);
    }
}

/// A settled bet leaves the ledger, so settling it again fails with
/// `RecordNotFound` and changes nothing.
pub proof fn lemma_settle_twice(
    v: LedgerView,
    authority: Pubkey,
    user: Pubkey,
    timestamp: i64,
    is_won: bool,
    now: i64,
    again_authority: Pubkey,
    again_won: bool,
    again_now: i64,
)
    requires
        ledger_wf(v),
        settle_bet_step(v, authority, user, timestamp, is_won, now).0 is Ok,
    ensures
        ({
            let after = settle_bet_step(v, authority, user, timestamp, is_won, now).1;
            &&& !has_bet(after.bets, user, timestamp)
            &&& settle_bet_step(after, again_authority, user, timestamp, again_won, again_now) == (
            Err::<(), BettingError>(BettingError::RecordNotFound),
            after,
            )
        }),
{
    lemma_bets_remove(v.bets, bet_index(v.bets, user, timestamp), user, timestamp);
}

/// Bets of one owner under distinct timestamps are independent: placing or
/// settling one leaves every other bet, its stake and its state, as it was.
pub proof fn lemma_bets_independent(
    v: LedgerView,
    authority: Pubkey,
    user: Pubkey,
    timestamp: i64,
    is_won: bool,
    now: i64,
    other_user: Pubkey,
    other_timestamp: i64,
)
    requires
        ledger_wf(v),
        !(other_user == user && other_timestamp == timestamp),
    ensures
        settle_bet_step(v, authority, user, timestamp, is_won, now).0 is Ok ==> bet_of(
            settle_bet_step(v, authority, user, timestamp, is_won, now).1.bets,
            other_user,
            other_timestamp,
        ) == bet_of(v.bets, other_user, other_timestamp),
{
    if settle_bet_step(v, authority, user, timestamp, is_won, now).0 is Ok {
        lemma_bets_remove(v.bets, bet_index(v.bets, user, timestamp), other_user, other_timestamp);
    }
}

/// Placing a bet leaves every bet under another key as it was.
pub proof fn lemma_create_bet_independent(
    v: LedgerView,
    signer: Pubkey,
    owner: Pubkey,
    session_token: Option<SessionToken>,
    timestamp: i64,
    odds: u64,
    expiry_time: i64,
    amount: u64,
    now: i64,
    bump: u8,
    other_user: Pubkey,
    other_timestamp: i64,
)
    requires
        ledger_wf(v),
        !(other_user == owner && other_timestamp == timestamp),
    ensures
        ({
            let step = create_bet_step(v, signer, owner, session_token, timestamp, odds, expiry_time, amount, now, bump);
            step.0 is Ok ==> bet_of(step.1.bets, other_user, other_timestamp) == bet_of(
                v.bets,
                other_user,
                other_timestamp,
            )
        }),
{
    let step = create_bet_step(v, signer, owner, session_token, timestamp, odds, expiry_time, amount, now, bump);
    if step.0 is Ok {
        let i = account_index(v.accounts, owner);
        assert(v.accounts[i].owner == owner);
        lemma_bets_push(v.bets, step.1.bets.last(), other_user, other_timestamp);
        assert(step.1.bets =~= v.bets.push(step.1.bets.last()));
    }
}

/// One operation on the ledger, with its arguments.
pub enum Operation {
    InitializeMarket { authority: Pubkey, bump: u8 },
    CreateProxyAccount { owner: Pubkey, bump: u8 },
    Deposit { owner: Pubkey, amount: u64 },
    CreateBet {
        signer: Pubkey,
        owner: Pubkey,
        session_token: Option<SessionToken>,
        timestamp: i64,
        odds: u64,
        expiry_time: i64,
        amount: u64,
        now: i64,
        bump: u8,
    },
    SettleBet { authority: Pubkey, user: Pubkey, timestamp: i64, is_won: bool, now: i64 },
    WithdrawUser { owner: Pubkey, amount: u64, proxy_lamports: u64, owner_lamports: u64 },
    WithdrawOwner {
        authority: Pubkey,
        amount: u64,
        market_lamports: u64,
        authority_lamports: u64,
        rent_exempt: u64,
    },
}

/// What `op` does to the ledger in state `v`.
pub open spec fn apply(v: LedgerView, op: Operation) -> Step {
    match op {
        Operation::InitializeMarket { authority, bump } => initialize_market_step(v, authority, bump),
        Operation::CreateProxyAccount { owner, bump } => create_proxy_account_step(v, owner, bump),
        Operation::Deposit { owner, amount } => deposit_step(v, owner, amount),
        Operation::CreateBet {
            signer,
            owner,
            session_token,
            timestamp,
            odds,
            expiry_time,
            amount,
            now,
            bump,
        } => create_bet_step(v, signer, owner, session_token, timestamp, odds, expiry_time, amount, now, bump),
        Operation::SettleBet { authority, user, timestamp, is_won, now } => settle_bet_step(
            v,
            authority,
            user,
            timestamp,
            is_won,
            now,
        ),
        Operation::WithdrawUser { owner, amount, proxy_lamports, owner_lamports } => withdraw_user_step(
            v,
            owner,
            amount,
            proxy_lamports,
            owner_lamports,
        ),
        Operation::WithdrawOwner { authority, amount, market_lamports, authority_lamports, rent_exempt } =>
            withdraw_owner_step(v, authority, amount, market_lamports, authority_lamports, rent_exempt),
    }
}

/// The currency that `op` brings into the ledger from `v` (negative when it
/// pays out): a deposit brings its amount, a withdrawal takes its amount, a
/// won bet brings its payout less its stake; a failed operation and every
/// other operation bring nothing.
pub open spec fn inflow(v: LedgerView, op: Operation) -> int {
    if apply(v, op).0 is Err {
        0
    } else {
        match op {
            Operation::Deposit { amount, .. } => amount as int,
            Operation::WithdrawUser { amount, .. } => -amount,
            Operation::WithdrawOwner { amount, .. } => -amount,
            Operation::SettleBet { user, timestamp, is_won, .. } => {
                let bet = v.bets[bet_index(v.bets, user, timestamp)];
                if is_won {
                    winnings(bet.amount, bet.odds) - bet.amount
                } else {
                    0
                }
            },
            _ => 0,
        }
    }
}

/// The state after running `ops` in order from `v`.
pub open spec fn run(v: LedgerView, ops: Seq<Operation>) -> LedgerView
    decreases ops.len(),
{
    if ops.len() == 0 {
        v
    } else {
        apply(run(v, ops.drop_last()), ops.last()).1
    }
}

/// The currency that running `ops` from `v` brings in, operation by operation.
pub open spec fn net_inflow(v: LedgerView, ops: Seq<Operation>) -> int
    decreases ops.len(),
{
    if ops.len() == 0 {
        0
    } else {
        net_inflow(v, ops.drop_last()) + inflow(run(v, ops.drop_last()), ops.last())
    }
}

proof fn lemma_apply_conserves(v: LedgerView, op: Operation)
    ensures
        total(apply(v, op).1) == total(v) + inflow(v, op),
{
    match op {
        Operation::InitializeMarket { authority, bump } => lemma_creation_conserves(v, authority, bump),
        Operation::CreateProxyAccount { owner, bump } => lemma_creation_conserves(v, owner, bump),
        Operation::Deposit { owner, amount } => lemma_deposit_conserves(v, owner, amount),
        Operation::CreateBet {
            signer,
            owner,
            session_token,
            timestamp,
            odds,
            expiry_time,
            amount,
            now,
            bump,
        } => lemma_create_bet_conserves(
            v,
            signer,
            owner,
            session_token,
            timestamp,
            odds,
            expiry_time,
            amount,
            now,
            bump,
        ),
        Operation::SettleBet { authority, user, timestamp, is_won, now } => lemma_settle_bet_conserves(
            v,
            authority,
            user,
            timestamp,
            is_won,
            now,
        ),
        Operation::WithdrawUser { owner, amount, proxy_lamports, owner_lamports } =>
            lemma_withdraw_user_conserves(v, owner, amount, proxy_lamports, owner_lamports),
        Operation::WithdrawOwner { authority, amount, market_lamports, authority_lamports, rent_exempt } =>
            lemma_withdraw_owner_conserves(v, authority, amount, market_lamports, authority_lamports, rent_exempt),
    }
}

/// Conservation: over any sequence of operations, the currency the ledger
/// holds (escrow balances, unsettled stakes and collected fees) changes only
/// by what deposits bring in, what withdrawals pay out, and the payout less
/// the stake of each won bet.
pub proof fn lemma_conservation(v: LedgerView, ops: Seq<Operation>)
    ensures
        total(run(v, ops)) == total(v) + net_inflow(v, ops),
    decreases ops.len(),
{
    if ops.len() > 0 {
        lemma_conservation(v, ops.drop_last());
        lemma_apply_conserves(run(v, ops.drop_last()), ops.last());
    }
}

/// Of a stored bet settled by the market's authority: before its expiry time
/// settlement fails with `BetNotExpired` and changes nothing; at or after it,
/// settlement succeeds whenever the counters stay within 64 bits.
pub proof fn lemma_ledger_settle_expiry(
    v: LedgerView,
    authority: Pubkey,
    user: Pubkey,
    timestamp: i64,
    is_won: bool,
    now: i64,
)
    requires
        ledger_wf(v),
        has_bet(v.bets, user, timestamp),
        v.market is Some,
        v.market->Some_0.authority == authority,
    ensures
        ({
            let bet = v.bets[bet_index(v.bets, user, timestamp)];
            &&& now < bet.expiry_time ==> settle_bet_step(v, authority, user, timestamp, is_won, now) == (
            Err::<(), BettingError>(BettingError::BetNotExpired),
            v,
            )
            &&& now >= bet.expiry_time && settle_fits(settle_context(v, authority, user, timestamp), is_won)
                ==> settle_bet_step(v, authority, user, timestamp, is_won, now).0 is Ok
        }),
{
    let j = bet_index(v.bets, user, timestamp);
    assert(stored_bet_wf(v, v.bets[j]));
    assert(has_account(v.accounts, v.bets[j].user));
    let i = account_index(v.accounts, user);
    assert(v.accounts[i].owner == user);
}

} // verus!
