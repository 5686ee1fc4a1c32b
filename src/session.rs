use vstd::prelude::*;
use crate::state::{Pubkey, SessionToken};

verus! {

/// Whether `signer` may act for `owner` at time `now`: it is the owner
/// itself, or it presents a credential that `owner` issued to `signer` and
/// that has not run out.
pub open spec fn signer_allowed(signer: Pubkey, owner: Pubkey, token: Option<SessionToken>, now: i64) -> bool {
    signer == owner || match token {
        Some(t) => t.authority == owner && t.session_signer == signer && now < t.valid_until,
        None => false,
    }
}

/// Decides `signer_allowed`.
pub fn is_authorized(signer: Pubkey, owner: Pubkey, token: Option<SessionToken>, now: i64) -> (r: bool)
    ensures
        r == signer_allowed(signer, owner, token, now),
{
    if signer == owner {
        return true;
    }
    match token {
        Some(t) => t.authority == owner && t.session_signer == signer && now < t.valid_until,
        None => false,
    }
}

} // verus!
