//! Authorization check for position-mutating calls: the signer must hold
//! the position's ownership token.

use vstd::prelude::*;
use crate::error::ErrorCode;

verus! {

/// Whether the signer owns or is delegated the position's ownership
/// token: the token account must hold exactly one token and be owned by
/// the signer; anything else fails with `NotApproved`.
pub fn is_authorized_for_token(
    signer: u64,
    token_account_owner: u64,
    token_account_amount: u64,
) -> (r: Result<(), ErrorCode>)
    ensures
        r == if token_account_amount == 1 && token_account_owner == signer {
            Ok::<(), ErrorCode>(())
        } else {
            Err::<(), ErrorCode>(ErrorCode::NotApproved)
        },
{
    if token_account_amount == 1 && token_account_owner == signer {
        Ok(())
    } else {
        Err(ErrorCode::NotApproved)
    }
}

} // verus!
