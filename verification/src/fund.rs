use vstd::prelude::*;
use crate::custody::TransferRequest;
use crate::state::{AccountId, Sale};

verus! {

/// Deposits into the sale's escrow: anyone may fund, and the sale record
/// itself is untouched. Returns the transfer moving `amount` from the
/// funder's `source` account into the escrow, authorized by the funder.
pub fn fund(sale: &Sale, user: AccountId, source: AccountId, amount: u64) -> (t: TransferRequest)
    ensures
        t == (TransferRequest { source, destination: sale.sale_token, authority: user, amount }),
{
    TransferRequest { source, destination: sale.sale_token, authority: user, amount }
}

} // verus!
