use vstd::prelude::*;
use crate::custody::CloseRequest;
use crate::errors::SaleError;
use crate::state::Vesting;

verus! {

/// Closes a vesting position. `custody_balance` is the live balance of the
/// position's custody sub-account: closing is honoured only once it is
/// exactly zero — callers must claim everything due first — and fails with
/// `NonZeroBalance` otherwise. On success the returned request deallocates
/// the custody sub-account and returns the storage deposit to the buyer;
/// the caller then drops the record itself.
pub fn close_vesting(vesting: &Vesting, custody_balance: u64) -> (r: Result<
    CloseRequest,
    SaleError,
>)
    ensures
        match r {
            Err(e) => e == SaleError::NonZeroBalance && custody_balance != 0,
            Ok(c) => custody_balance == 0 && c == (CloseRequest {
                account: vesting.vesting_token,
                authority: vesting.derived_authority,
                rent_destination: vesting.user,
            }),
        },
{
    if custody_balance != 0 {
        return Err(SaleError::NonZeroBalance);
    }
    Ok(CloseRequest {
        account: vesting.vesting_token,
        authority: vesting.derived_authority,
        rent_destination: vesting.user,
    })
}

} // verus!
