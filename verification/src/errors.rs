use vstd::prelude::*;

verus! {

/// Every way a sale or vesting operation can fail.
///
/// All failures are terminal and synchronous: the caller must fix the input
/// (wait for maturity, top up funds, correct the schedule) and resubmit.
#[derive(Clone, Copy, Debug, PartialEq, Eq, Structural)]
pub enum SaleError {
    /// Sale creation was given a price with a zero numerator or denominator.
    ZeroPrice,
    /// Sale creation was given tranche fractions that, together with the
    /// advance fraction, do not sum to exactly 10000 basis points.
    FractionsNotFullyAllocated,
    /// A purchase offered less than the sale's minimum payment.
    AmountMinimum,
    /// A purchase or pause was attempted while the sale is inactive.
    SaleNotActive,
    /// A resume was attempted while the sale is already active.
    SaleAlreadyActive,
    /// Pricing or merge arithmetic exceeded the representable range.
    CalculationOverflow,
    /// A purchase tried to merge into a vesting ledger whose identity or
    /// release schedule does not match the sale's.
    IncompatibleVesting,
    /// A claim found no matured, unclaimed tranche.
    NothingToClaim,
    /// The custody service refused a transfer for lack of funds.
    InsufficientFunds,
    /// A close found the custody account still holding funds.
    NonZeroBalance,
}

} // verus!
