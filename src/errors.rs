use vstd::prelude::*;

verus! {

/// Every way an operation of the ledger can fail. An operation that fails
/// leaves every record exactly as it found it.
#[derive(Clone, Copy, Debug, PartialEq, Eq, Structural)]
pub enum BettingError {
    InsufficientBalance,
    BetNotExpired,
    /// Reserved: no operation raises it.
    BetExpired,
    BetNotActive,
    InvalidBetAmount,
    InvalidOdds,
    MarketNotActive,
    Unauthorized,
    ArithmeticOverflow,
    InvalidTimestamp,
    /// A record already stands under the key that an operation would create.
    RecordAlreadyExists,
    /// No record stands under the key that an operation reads.
    RecordNotFound,
    /// The signer is neither the owner nor holds a valid session for the owner.
    DelegationInvalid,
}

impl BettingError {
    /// The human-readable message of the error.
    pub fn message(&self) -> (r: &'static str) {
        match self {
            BettingError::InsufficientBalance => "Insufficient balance in proxy account",
            BettingError::BetNotExpired => "Bet has not expired yet",
            BettingError::BetExpired => "Bet has already expired",
            BettingError::BetNotActive => "Bet is not active",
            BettingError::InvalidBetAmount => "Invalid bet amount",
            BettingError::InvalidOdds => "Invalid odds",
            BettingError::MarketNotActive => "Market is not active",
            BettingError::Unauthorized => "Unauthorized access",
            BettingError::ArithmeticOverflow => "Arithmetic overflow",
            BettingError::InvalidTimestamp => "Invalid timestamp",
            BettingError::RecordAlreadyExists => "Record already exists",
            BettingError::RecordNotFound => "Record not found",
            BettingError::DelegationInvalid => "Invalid session token",
        }
    }
}

} // verus!
