use vstd::prelude::*;
use crate::errors::SaleError;
use crate::state::{AccountId, Sale};

verus! {

/// Hands control of the sale to `new_authority`, unconditionally. Only the
/// current authority may call this.
pub fn update_authority(sale: &mut Sale, caller: AccountId, new_authority: AccountId)
    requires
        caller == old(sale).authority,
    ensures
        *final(sale) == (Sale { authority: new_authority, ..*old(sale) }),
{
    sale.authority = new_authority;
}

/// Stops purchases. Only the authority may call this; pausing an already
/// inactive sale fails with `SaleNotActive` and changes nothing — callers
/// are expected to check the state first.
pub fn pause(sale: &mut Sale, caller: AccountId) -> (r: Result<(), SaleError>)
    requires
        caller == old(sale).authority,
    ensures
        match r {
            Ok(_) => old(sale).is_active && *final(sale) == (Sale {
                is_active: false,
                ..*old(sale)
            }),
            Err(e) => e == SaleError::SaleNotActive && !old(sale).is_active && *final(sale)
                == *old(sale),
        },
{
    if !sale.is_active {
        return Err(SaleError::SaleNotActive);
    }
    sale.is_active = false;
    Ok(())
}

/// Opens the sale for purchases. Only the authority may call this; resuming
/// an already active sale fails with `SaleAlreadyActive` and changes
/// nothing.
pub fn resume(sale: &mut Sale, caller: AccountId) -> (r: Result<(), SaleError>)
    requires
        caller == old(sale).authority,
    ensures
        match r {
            Ok(_) => !old(sale).is_active && *final(sale) == (Sale {
                is_active: true,
                ..*old(sale)
            }),
            Err(e) => e == SaleError::SaleAlreadyActive && old(sale).is_active && *final(sale)
                == *old(sale),
        },
{
    if sale.is_active {
        return Err(SaleError::SaleAlreadyActive);
    }
    sale.is_active = true;
    Ok(())
}

} // verus!
