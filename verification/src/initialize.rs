use vstd::prelude::*;
use crate::errors::SaleError;
use crate::state::{AccountId, ReleaseSchedule, Sale, sum_fractions, TOTAL_BPS};

verus! {

/// Whether the advance fraction plus the schedule's fractions allocate
/// exactly one whole purchase, in basis points. Shared by sale creation and
/// by anyone re-checking a schedule.
pub fn check_release_schedule(advance_fraction: u16, release_schedule: &Vec<ReleaseSchedule>)
    -> (r: bool)
    ensures
        r == (sum_fractions(release_schedule@) + advance_fraction == TOTAL_BPS),
{
    let ghost s = release_schedule@;
    let mut total: u128 = 0;
    let mut i: usize = 0;
    while i < release_schedule.len()
        invariant
            i <= release_schedule.len(),
            s == release_schedule@,
            total == sum_fractions(s.take(i as int)),
            total <= i * 65535,
        decreases release_schedule.len() - i,
    {
        proof {
            assert(s.take(i + 1).drop_last() =~= s.take(i as int));
            assert(s.take(i + 1).last() == s[i as int]);
        }
        total = total + release_schedule[i].fraction as u128;
        i = i + 1;
    }
    proof {
        assert(s.take(release_schedule@.len() as int) =~= s);
    }
    total + advance_fraction as u128 == TOTAL_BPS as u128
}

/// Creates a sale record.
///
/// Fails with `ZeroPrice` when either price component is zero, and with
/// `FractionsNotFullyAllocated` unless the advance fraction plus the
/// schedule's fractions sum to exactly 10000 basis points. On success the
/// record starts inactive, with the given pricing and schedule fixed for its
/// life and the custody identities recorded.
pub fn initialize(
    authority: AccountId,
    price_numerator: u64,
    price_denominator: u64,
    payment_min_amount: u64,
    advance_fraction: u16,
    no_sale_just_vesting: bool,
    release_schedule: Vec<ReleaseSchedule>,
    sale_mint: AccountId,
    sale_token: AccountId,
    payment: AccountId,
    derived_authority: AccountId,
) -> (r: Result<Sale, SaleError>)
    ensures
        match r {
            Err(e) => (e == SaleError::ZeroPrice && (price_numerator == 0 || price_denominator
                == 0)) || (e == SaleError::FractionsNotFullyAllocated && price_numerator != 0
                && price_denominator != 0 && sum_fractions(release_schedule@) + advance_fraction
                != TOTAL_BPS),
            Ok(sale) => price_numerator != 0 && price_denominator != 0
                && sum_fractions(release_schedule@) + advance_fraction == TOTAL_BPS
                && sale == (Sale {
                    authority,
                    is_active: false,
                    price_numerator,
                    price_denominator,
                    payment_min_amount,
                    advance_fraction,
                    release_schedule,
                    sale_mint,
                    sale_token,
                    payment,
                    derived_authority,
                    no_sale_just_vesting,
                }) && sale.wf(),
        },
{
    if price_numerator == 0 || price_denominator == 0 {
        return Err(SaleError::ZeroPrice);
    }
    if !check_release_schedule(advance_fraction, &release_schedule) {
        return Err(SaleError::FractionsNotFullyAllocated);
    }
    Ok(Sale {
        authority,
        is_active: false,
        price_numerator,
        price_denominator,
        payment_min_amount,
        advance_fraction,
        release_schedule,
        sale_mint,
        sale_token,
        payment,
        derived_authority,
        no_sale_just_vesting,
    })
}

} // verus!
