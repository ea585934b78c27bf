use vstd::prelude::*;
use crate::state::{AccountId, Sale, Vesting, VestingSchedule, sum_amounts};

verus! {

/// Explicitly creates an empty vesting position for `user` against the
/// sale's token mint: every tranche starts at zero, positionally aligned
/// with the sale's release schedule, so later purchases from any sale with
/// the same schedule shape can merge into it.
pub fn init_vesting(
    sale: &Sale,
    sale_key: AccountId,
    user: AccountId,
    vesting_token: AccountId,
    derived_authority: AccountId,
) -> (v: Vesting)
    ensures
        v.user == user,
        v.sale_mint == sale.sale_mint,
        v.first_sale == sale_key,
        v.total_amount == 0,
        v.vesting_token == vesting_token,
        v.derived_authority == derived_authority,
        v.schedule@.len() == sale.release_schedule@.len(),
        forall|i: int|
            0 <= i < v.schedule@.len() ==> v.schedule@[i] == (VestingSchedule {
                release_time: #[trigger] sale.release_schedule@[i].release_time,
                amount: 0,
            }),
        v.wf(),
        v.compatible_with(*sale, user),
{
    let mut schedule: Vec<VestingSchedule> = Vec::new();
    let mut i: usize = 0;
    while i < sale.release_schedule.len()
        invariant
            i <= sale.release_schedule.len(),
            schedule@.len() == i,
            forall|j: int|
                0 <= j < i ==> schedule@[j] == (VestingSchedule {
                    release_time: #[trigger] sale.release_schedule@[j].release_time,
                    amount: 0,
                }),
            sum_amounts(schedule@) == 0,
        decreases sale.release_schedule.len() - i,
    {
        let line = VestingSchedule { release_time: sale.release_schedule[i].release_time, amount: 0 };
        proof {
            assert(schedule@.push(line).drop_last() =~= schedule@);
        }
        schedule.push(line);
        i = i + 1;
    }
    Vesting {
        user,
        sale_mint: sale.sale_mint,
        first_sale: sale_key,
        total_amount: 0,
        schedule,
        vesting_token,
        derived_authority,
    }
}

} // verus!
