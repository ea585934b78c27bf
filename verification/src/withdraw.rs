use vstd::prelude::*;
use crate::custody::TransferRequest;
use crate::state::{AccountId, Sale};

verus! {

/// The amount that asks for the whole escrow balance instead of a literal
/// quantity.
pub const WITHDRAW_ALL: u64 = u64::MAX;

/// Withdraws from the sale's escrow; only the authority may call this.
/// `escrow_balance` is the escrow's live balance, read just before the
/// transfer: the `WITHDRAW_ALL` sentinel resolves to it, draining the
/// escrow. Returns the transfer moving the resolved amount to
/// `destination`, authorized by the sale's derived identity.
pub fn withdraw(
    sale: &Sale,
    caller: AccountId,
    destination: AccountId,
    escrow_balance: u64,
    amount: u64,
) -> (t: TransferRequest)
    requires
        caller == sale.authority,
    ensures
        t == (TransferRequest {
            source: sale.sale_token,
            destination,
            authority: sale.derived_authority,
            amount: if amount == WITHDRAW_ALL { escrow_balance } else { amount },
        }),
{
    let resolved = if amount == WITHDRAW_ALL { escrow_balance } else { amount };
    TransferRequest {
        source: sale.sale_token,
        destination,
        authority: sale.derived_authority,
        amount: resolved,
    }
}

} // verus!
