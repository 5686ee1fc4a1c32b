//! A custodial wagering ledger: owner-bound escrow records, a market record
//! that collects the stakes of lost bets, and time-bound bets settled by the
//! market's authority.
//!
//! Each instruction is a verified transition on the records it touches
//! (`settle_bet`, `create_bet`, ...); `ledger` keeps the records in a keyed
//! store whose operations refine the transitions of `model`, and `laws`
//! proves what holds across them.
pub mod errors;
pub mod state;
pub mod session;
pub mod settle_bet;
pub mod create_bet;
pub mod withdraw_user;
pub mod withdraw_owner;
pub mod create_proxy_account;
pub mod deposit;
pub mod initialize_market;
pub mod sums;
pub mod model;
pub mod ledger;
pub mod laws;
