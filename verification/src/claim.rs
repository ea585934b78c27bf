use vstd::prelude::*;
use crate::custody::TransferRequest;
use crate::errors::SaleError;
use crate::state::{AccountId, Vesting, VestingSchedule, sum_amounts};

verus! {

/// The claimable total of a vesting schedule at time `now`: the sum of the
/// amounts on every line whose release time has passed.
pub open spec fn due_amount(s: Seq<VestingSchedule>, now: u64) -> int
    decreases s.len(),
{
    if s.len() == 0 {
        0
    } else {
        due_amount(s.drop_last(), now) + if s.last().release_time <= now {
            s.last().amount as int
        } else {
            0
        }
    }
}

/// What is due never exceeds what the schedule holds in all.
pub proof fn lemma_due_le_sum(s: Seq<VestingSchedule>, now: u64)
    ensures
        0 <= due_amount(s, now) <= sum_amounts(s),
    decreases s.len(),
{
    if s.len() > 0 {
        lemma_due_le_sum(s.drop_last(), now);
    }
}

/// A schedule whose matured lines all hold zero has nothing due: both a
/// schedule claimed moments ago and one whose first release still lies
/// ahead are of this shape, so claiming either fails.
pub proof fn lemma_due_amount_drained(s: Seq<VestingSchedule>, now: u64)
    requires
        forall|i: int|
            0 <= i < s.len() ==> ((#[trigger] s[i]).release_time <= now ==> s[i].amount == 0),
    ensures
        due_amount(s, now) == 0,
    decreases s.len(),
{
    if s.len() > 0 {
        lemma_due_amount_drained(s.drop_last(), now);
    }
}

/// Once every line has matured, the whole remaining holding is due: a claim
/// at such a time empties the schedule, which is what lets the position's
/// custody account reach zero and the position be closed.
pub proof fn lemma_due_amount_all_matured(s: Seq<VestingSchedule>, now: u64)
    requires
        forall|i: int| 0 <= i < s.len() ==> (#[trigger] s[i]).release_time <= now,
    ensures
        due_amount(s, now) == sum_amounts(s),
    decreases s.len(),
{
    if s.len() > 0 {
        lemma_due_amount_all_matured(s.drop_last(), now);
    }
}

/// Amounts of a prefix of a schedule sum to no more than the whole
/// schedule's.
pub proof fn lemma_sum_amounts_prefix(s: Seq<VestingSchedule>, i: int)
    requires
        0 <= i <= s.len(),
    ensures
        sum_amounts(s.take(i)) <= sum_amounts(s),
    decreases s.len(),
{
    if i == s.len() {
        assert(s.take(i) =~= s);
    } else {
        assert(s.take(i) =~= s.drop_last().take(i));
        lemma_sum_amounts_prefix(s.drop_last(), i);
    }
}

/// Claims everything matured at time `now` from a vesting position.
///
/// Fails with `NothingToClaim` when no matured line holds anything —
/// including immediately after a successful claim with no time advance —
/// and then leaves the position untouched. On success, every matured line
/// is zeroed (release times stay, keeping the schedule positionally stable
/// for future top-ups), the lifetime total is untouched, and the returned
/// transfer moves the due sum from the position's custody sub-account to
/// `user_token` under the position's derived authority.
#[verifier::loop_isolation(false)]
pub fn claim(vesting: &mut Vesting, user_token: AccountId, now: u64) -> (r: Result<
    TransferRequest,
    SaleError,
>)
    requires
        old(vesting).wf(),
    ensures
        match r {
            Err(e) => e == SaleError::NothingToClaim && due_amount(old(vesting).schedule@, now)
                == 0 && *final(vesting) == *old(vesting),
            Ok(t) => {
                &&& due_amount(old(vesting).schedule@, now) > 0
                &&& t.source == old(vesting).vesting_token
                &&& t.destination == user_token
                &&& t.authority == old(vesting).derived_authority
                &&& t.amount == due_amount(old(vesting).schedule@, now)
                &&& *final(vesting) == (Vesting {
                    schedule: final(vesting).schedule,
                    ..*old(vesting)
                })
                &&& final(vesting).schedule@.len() == old(vesting).schedule@.len()
                &&& forall|i: int|
                    0 <= i < old(vesting).schedule@.len()
                        ==> (#[trigger] final(vesting).schedule@[i]).release_time == old(
                        vesting,
                    ).schedule@[i].release_time
                &&& forall|i: int|
                    0 <= i < old(vesting).schedule@.len()
                        ==> (#[trigger] final(vesting).schedule@[i]).amount == (if old(
                        vesting,
                    ).schedule@[i].release_time <= now {
                        0
                    } else {
                        old(vesting).schedule@[i].amount as int
                    })
                &&& due_amount(final(vesting).schedule@, now) == 0
                &&& final(vesting).wf()
            },
        },
{
    let ghost s = old(vesting).schedule@;
    let mut due: u64 = 0;
    let mut i: usize = 0;
    while i < vesting.schedule.len()
        invariant
            i <= s.len(),
            vesting == old(vesting),
            due == due_amount(s.take(i as int), now),
        decreases s.len() - i,
    {
        proof {
            assert(s.take(i + 1).drop_last() =~= s.take(i as int));
            assert(s.take(i + 1).last() == s[i as int]);
            lemma_due_le_sum(s.take(i + 1), now);
            lemma_sum_amounts_prefix(s, i + 1);
        }
        let line = vesting.schedule[i];
        if line.release_time <= now {
            due = due + line.amount;
        }
        i = i + 1;
    }
    proof {
        assert(s.take(s.len() as int) =~= s);
    }
    if due == 0 {
        return Err(SaleError::NothingToClaim);
    }
    let mut schedule: Vec<VestingSchedule> = Vec::new();
    let mut j: usize = 0;
    while j < vesting.schedule.len()
        invariant
            j <= s.len(),
            vesting == old(vesting),
            schedule@.len() == j,
            forall|k: int|
                0 <= k < j ==> (#[trigger] schedule@[k]).release_time == s[k].release_time,
            forall|k: int|
                0 <= k < j ==> (#[trigger] schedule@[k]).amount == (if s[k].release_time <= now {
                    0
                } else {
                    s[k].amount as int
                }),
            sum_amounts(schedule@) <= sum_amounts(s.take(j as int)),
            due_amount(schedule@, now) == 0,
        decreases s.len() - j,
    {
        let old_line = vesting.schedule[j];
        let line = if old_line.release_time <= now {
            VestingSchedule { release_time: old_line.release_time, amount: 0 }
        } else {
            old_line
        };
        proof {
            assert(schedule@.push(line).drop_last() =~= schedule@);
            assert(s.take(j + 1).drop_last() =~= s.take(j as int));
        }
        schedule.push(line);
        j = j + 1;
    }
    proof {
        assert(s.take(s.len() as int) =~= s);
    }
    let source = vesting.vesting_token;
    let authority = vesting.derived_authority;
    vesting.schedule = schedule;
    Ok(TransferRequest { source, destination: user_token, authority, amount: due })
}

} // verus!
