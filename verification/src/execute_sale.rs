use vstd::prelude::*;
use crate::custody::TransferRequest;
use crate::errors::SaleError;
use crate::pricing::{
    compute_purchase_amount, lemma_tranche_le_sum, lemma_tranche_of_nonneg, split_purchase,
    tranche_of, tranche_sum,
};
use crate::state::{
    AccountId, ReleaseSchedule, Sale, Vesting, VestingSchedule, lemma_amount_le_sum, sum_amounts,
};

verus! {

/// The tokens a payment purchases under a sale's pricing: the payment
/// itself in the vesting-only mode, otherwise the payment scaled by the
/// price and rounded down.
pub open spec fn purchased_of(sale: Sale, payment_amount: u64) -> int {
    if sale.no_sale_just_vesting {
        payment_amount as int
    } else {
        payment_amount * sale.price_numerator / (sale.price_denominator as int)
    }
}

/// Whether the purchased amount fits the token amount width.
pub open spec fn purchase_fits(sale: Sale, payment_amount: u64) -> bool {
    purchased_of(sale, payment_amount) <= u64::MAX
}

/// Whether topping up `v` with this purchase keeps its lifetime total within
/// the token amount width.
pub open spec fn merge_fits(v: Vesting, sale: Sale, payment_amount: u64) -> bool {
    v.total_amount + tranche_sum(purchased_of(sale, payment_amount), sale.release_schedule@)
        <= u64::MAX
}

/// The failure a purchase runs into, if any, in the order the checks are
/// made: the sale gate, the minimum payment, the pricing width, then — when
/// merging into an existing position — schedule compatibility and the
/// lifetime total's width.
pub open spec fn purchase_error(
    sale: Sale,
    existing: Option<Vesting>,
    user: AccountId,
    payment_amount: u64,
) -> Option<SaleError> {
    if !sale.is_active {
        Some(SaleError::SaleNotActive)
    } else if payment_amount < sale.payment_min_amount {
        Some(SaleError::AmountMinimum)
    } else if !purchase_fits(sale, payment_amount) {
        Some(SaleError::CalculationOverflow)
    } else if existing matches Some(v) && !v.compatible_with(sale, user) {
        Some(SaleError::IncompatibleVesting)
    } else if existing matches Some(v) && !merge_fits(v, sale, payment_amount) {
        Some(SaleError::CalculationOverflow)
    } else {
        None
    }
}

/// A purchase that would otherwise go through, aimed at an existing
/// position of a different shape — a schedule of another length, a
/// mismatched release time at any position, or another buyer or mint —
/// fails with `IncompatibleVesting`. Together with [`execute_sale`]'s
/// contract this pins the failure: nothing is transferred and the position
/// is left exactly as it was.
pub proof fn lemma_incompatible_merge_rejected(
    sale: Sale,
    v: Vesting,
    user: AccountId,
    payment_amount: u64,
)
    requires
        sale.is_active,
        payment_amount >= sale.payment_min_amount,
        purchase_fits(sale, payment_amount),
        v.schedule@.len() != sale.release_schedule@.len() || v.user != user || v.sale_mint
            != sale.sale_mint || exists|i: int|
            0 <= i < v.schedule@.len() && (#[trigger] v.schedule@[i]).release_time
                != sale.release_schedule@[i].release_time,
    ensures
        purchase_error(sale, Some(v), user, payment_amount) == Some(
            SaleError::IncompatibleVesting,
        ),
{
}

/// Everything one successful purchase decides: the amounts, the custody
/// transfers to carry out, and the buyer's vesting position as the purchase
/// leaves it.
#[derive(Clone, Debug, PartialEq, Eq)]
pub struct PurchaseOutcome {
    /// Tokens the payment bought.
    pub purchased: u64,
    /// Portion released to the buyer immediately: the purchase minus the
    /// vested tranches, so every rounding remainder lands here.
    pub advance: u64,
    /// Portion moved into the vesting position.
    pub remaining_total: u64,
    /// Payment moving from the buyer to the sale's proceeds destination;
    /// absent in the vesting-only mode.
    pub payment_transfer: Option<TransferRequest>,
    /// Advance moving from the escrow to the buyer; absent when the advance
    /// is zero.
    pub advance_transfer: Option<TransferRequest>,
    /// Vested remainder moving from the escrow to the position's custody
    /// sub-account.
    pub vesting_transfer: TransferRequest,
    /// The vesting position after the purchase: fresh when none existed,
    /// otherwise the existing one topped up tranche by tranche.
    pub vesting: Vesting,
}

/// Whether the vesting schedule `a` lines up with the release schedule `b`:
/// same length, same release time at every position.
pub fn schedule_times_match(a: &Vec<VestingSchedule>, b: &Vec<ReleaseSchedule>) -> (r: bool)
    ensures
        r == (a@.len() == b@.len() && forall|i: int|
            0 <= i < a@.len() ==> a@[i].release_time == #[trigger] b@[i].release_time),
{
    if a.len() != b.len() {
        return false;
    }
    let mut i: usize = 0;
    while i < a.len()
        invariant
            i <= a@.len(),
            a@.len() == b@.len(),
            forall|j: int| 0 <= j < i ==> a@[j].release_time == #[trigger] b@[j].release_time,
        decreases a.len() - i,
    {
        if a[i].release_time != b[i].release_time {
            return false;
        }
        i = i + 1;
    }
    true
}

/// Executes one purchase against a sale, atomically: every check runs
/// before anything is decided, so a failure leaves no transfer to carry out
/// and the existing position untouched.
///
/// On success the payment moves to the sale's proceeds destination (unless
/// the sale is vesting-only), the advance portion moves straight to the
/// buyer, and the vested remainder moves into the position's custody
/// sub-account. The advance is the purchase minus the vested tranches —
/// never a separately rounded quantity — so advance plus tranches equals
/// the purchase exactly. A purchase may merge into an existing position only
/// for the same buyer and mint and a release schedule of identical shape;
/// `sale_key`, `vesting_token` and `vesting_authority` are used only when no
/// position existed and a fresh one is created.
#[verifier::loop_isolation(false)]
pub fn execute_sale(
    sale: &Sale,
    sale_key: AccountId,
    user: AccountId,
    user_sale_token: AccountId,
    existing: &Option<Vesting>,
    vesting_token: AccountId,
    vesting_authority: AccountId,
    payment_amount: u64,
) -> (r: Result<PurchaseOutcome, SaleError>)
    requires
        sale.wf(),
        (*existing) matches Some(v) ==> v.wf(),
    ensures
        match r {
            Err(e) => purchase_error(*sale, *existing, user, payment_amount) == Some(e),
            Ok(o) => {
                let p = purchased_of(*sale, payment_amount);
                let rem = tranche_sum(p, sale.release_schedule@);
                &&& purchase_error(*sale, *existing, user, payment_amount) is None
                &&& o.purchased == p
                &&& o.remaining_total == rem
                &&& o.advance + o.remaining_total == o.purchased
                &&& o.payment_transfer == (if sale.no_sale_just_vesting {
                    None
                } else {
                    Some(TransferRequest {
                        source: user,
                        destination: sale.payment,
                        authority: user,
                        amount: payment_amount,
                    })
                })
                &&& o.advance_transfer == (if p == rem {
                    None
                } else {
                    Some(TransferRequest {
                        source: sale.sale_token,
                        destination: user_sale_token,
                        authority: sale.derived_authority,
                        amount: o.advance,
                    })
                })
                &&& o.vesting_transfer == (TransferRequest {
                    source: sale.sale_token,
                    destination: o.vesting.vesting_token,
                    authority: sale.derived_authority,
                    amount: o.remaining_total,
                })
                &&& o.vesting.user == user
                &&& o.vesting.sale_mint == sale.sale_mint
                &&& o.vesting.first_sale == (match *existing {
                    Some(v) => v.first_sale,
                    None => sale_key,
                })
                &&& o.vesting.vesting_token == (match *existing {
                    Some(v) => v.vesting_token,
                    None => vesting_token,
                })
                &&& o.vesting.derived_authority == (match *existing {
                    Some(v) => v.derived_authority,
                    None => vesting_authority,
                })
                &&& o.vesting.total_amount == (match *existing {
                    Some(v) => v.total_amount as int,
                    None => 0,
                }) + rem
                &&& o.vesting.schedule@.len() == sale.release_schedule@.len()
                &&& forall|i: int|
                    0 <= i < o.vesting.schedule@.len() ==> o.vesting.schedule@[i].release_time
                        == #[trigger] sale.release_schedule@[i].release_time
                &&& forall|i: int|
                    0 <= i < o.vesting.schedule@.len() ==> o.vesting.schedule@[i].amount == (
                    match *existing {
                        Some(v) => v.schedule@[i].amount as int,
                        None => 0,
                    }) + tranche_of(p, #[trigger] sale.release_schedule@[i].fraction)
                &&& o.vesting.wf()
            },
        },
{
    if !sale.is_active {
        return Err(SaleError::SaleNotActive);
    }
    if payment_amount < sale.payment_min_amount {
        return Err(SaleError::AmountMinimum);
    }
    let purchased: u64 = if sale.no_sale_just_vesting {
        payment_amount
    } else {
        match compute_purchase_amount(payment_amount, sale.price_numerator, sale.price_denominator)
        {
            Ok(v) => v,
            Err(e) => {
                return Err(e);
            },
        }
    };
    let ghost p = purchased as int;
    let ghost rsched = sale.release_schedule@;
    let (amounts, remaining_total) = split_purchase(purchased, &sale.release_schedule);
    let advance: u64 = purchased - remaining_total;
    let vesting: Vesting = match existing {
        Some(v) => {
            if v.user != user || v.sale_mint != sale.sale_mint {
                return Err(SaleError::IncompatibleVesting);
            }
            if !schedule_times_match(&v.schedule, &sale.release_schedule) {
                return Err(SaleError::IncompatibleVesting);
            }
            let new_total: u64 = match v.total_amount.checked_add(remaining_total) {
                Some(t) => t,
                None => {
                    return Err(SaleError::CalculationOverflow);
                },
            };
            let mut schedule: Vec<VestingSchedule> = Vec::new();
            let mut i: usize = 0;
            while i < v.schedule.len()
                invariant
                    i <= v.schedule@.len(),
                    schedule@.len() == i,
                    forall|j: int|
                        0 <= j < i ==> (#[trigger] schedule@[j]).release_time
                            == v.schedule@[j].release_time,
                    forall|j: int|
                        0 <= j < i ==> (#[trigger] schedule@[j]).amount == v.schedule@[j].amount
                            + tranche_of(p, rsched[j].fraction),
                    sum_amounts(schedule@) == sum_amounts(v.schedule@.take(i as int))
                        + tranche_sum(p, rsched.take(i as int)),
                decreases v.schedule@.len() - i,
            {
                proof {
                    lemma_amount_le_sum(v.schedule@, i as int);
                    lemma_tranche_le_sum(p, rsched, i as int);
                    lemma_tranche_of_nonneg(p, rsched[i as int].fraction);
                }
                let line = VestingSchedule {
                    release_time: v.schedule[i].release_time,
                    amount: v.schedule[i].amount + amounts[i],
                };
                proof {
                    assert(schedule@.push(line).drop_last() =~= schedule@);
                    assert(v.schedule@.take(i + 1).drop_last() =~= v.schedule@.take(i as int));
                    assert(rsched.take(i + 1).drop_last() =~= rsched.take(i as int));
                }
                schedule.push(line);
                i = i + 1;
            }
            proof {
                assert(v.schedule@.take(v.schedule@.len() as int) =~= v.schedule@);
                assert(rsched.take(rsched.len() as int) =~= rsched);
            }
            Vesting {
                user: v.user,
                sale_mint: v.sale_mint,
                first_sale: v.first_sale,
                total_amount: new_total,
                schedule,
                vesting_token: v.vesting_token,
                derived_authority: v.derived_authority,
            }
        },
        None => {
            let mut schedule: Vec<VestingSchedule> = Vec::new();
            let mut i: usize = 0;
            while i < sale.release_schedule.len()
                invariant
                    i <= rsched.len(),
                    schedule@.len() == i,
                    forall|j: int|
                        0 <= j < i ==> (#[trigger] schedule@[j]).release_time
                            == rsched[j].release_time,
                    forall|j: int|
                        0 <= j < i ==> (#[trigger] schedule@[j]).amount == tranche_of(
                            p,
                            rsched[j].fraction,
                        ),
                    sum_amounts(schedule@) == tranche_sum(p, rsched.take(i as int)),
                decreases rsched.len() - i,
            {
                let line = VestingSchedule {
                    release_time: sale.release_schedule[i].release_time,
                    amount: amounts[i],
                };
                proof {
                    assert(schedule@.push(line).drop_last() =~= schedule@);
                    assert(rsched.take(i + 1).drop_last() =~= rsched.take(i as int));
                }
                schedule.push(line);
                i = i + 1;
            }
            proof {
                assert(rsched.take(rsched.len() as int) =~= rsched);
            }
            Vesting {
                user,
                sale_mint: sale.sale_mint,
                first_sale: sale_key,
                total_amount: remaining_total,
                schedule,
                vesting_token,
                derived_authority: vesting_authority,
            }
        },
    };
    let payment_transfer: Option<TransferRequest> = if sale.no_sale_just_vesting {
        None
    } else {
        Some(TransferRequest {
            source: user,
            destination: sale.payment,
            authority: user,
            amount: payment_amount,
        })
    };
    let advance_transfer: Option<TransferRequest> = if advance == 0 {
        None
    } else {
        Some(TransferRequest {
            source: sale.sale_token,
            destination: user_sale_token,
            authority: sale.derived_authority,
            amount: advance,
        })
    };
    let vesting_transfer = TransferRequest {
        source: sale.sale_token,
        destination: vesting.vesting_token,
        authority: sale.derived_authority,
        amount: remaining_total,
    };
    Ok(PurchaseOutcome {
        purchased,
        advance,
        remaining_total,
        payment_transfer,
        advance_transfer,
        vesting_transfer,
        vesting,
    })
}

} // verus!
