use vstd::prelude::*;
use crate::errors::SaleError;
use crate::state::{ReleaseSchedule, sum_fractions, TOTAL_BPS};
use vstd::arithmetic::div_mod::{
    lemma_div_is_ordered, lemma_div_multiples_vanish, lemma_div_pos_is_pos,
    lemma_fundamental_div_mod, lemma_mod_bound,
};
use vstd::arithmetic::mul::{
    lemma_mul_inequality, lemma_mul_is_commutative, lemma_mul_is_distributive_add,
    lemma_mul_nonnegative, lemma_mul_upper_bound,
};

verus! {

/// Tokens vested on one schedule line for a purchase of `purchased` tokens:
/// the line's fraction of the purchase, rounded down.
pub open spec fn tranche_of(purchased: int, fraction: u16) -> int {
    purchased * fraction / (TOTAL_BPS as int)
}

/// Total tokens vested over a whole release schedule for a purchase of
/// `purchased` tokens.
pub open spec fn tranche_sum(purchased: int, s: Seq<ReleaseSchedule>) -> int
    decreases s.len(),
{
    if s.len() == 0 {
        0
    } else {
        tranche_sum(purchased, s.drop_last()) + tranche_of(purchased, s.last().fraction)
    }
}

/// A tranche of a non-negative purchase is non-negative.
pub proof fn lemma_tranche_of_nonneg(purchased: int, fraction: u16)
    requires
        purchased >= 0,
    ensures
        tranche_of(purchased, fraction) >= 0,
{
    lemma_mul_nonnegative(purchased, fraction as int);
    lemma_div_pos_is_pos(purchased * fraction, TOTAL_BPS as int);
}

/// A tranche never exceeds the purchase it is carved from, as long as its
/// fraction is at most one whole allocation.
pub proof fn lemma_tranche_of_le(purchased: int, fraction: u16)
    requires
        purchased >= 0,
        fraction <= TOTAL_BPS,
    ensures
        0 <= tranche_of(purchased, fraction) <= purchased,
{
    let bps = TOTAL_BPS as int;
    lemma_tranche_of_nonneg(purchased, fraction);
    lemma_mul_inequality(fraction as int, bps, purchased);
    lemma_mul_is_commutative(purchased, fraction as int);
    lemma_mul_is_commutative(purchased, bps);
    lemma_div_is_ordered(purchased * fraction, bps * purchased, bps);
    lemma_div_multiples_vanish(purchased, bps);
}

/// Scaled up by one whole allocation, the vested total stays below the
/// purchase scaled by the schedule's fraction sum: rounding only ever loses.
pub proof fn lemma_tranche_sum_scaled(purchased: int, s: Seq<ReleaseSchedule>)
    requires
        purchased >= 0,
    ensures
        tranche_sum(purchased, s) >= 0,
        (TOTAL_BPS as int) * tranche_sum(purchased, s) <= purchased * sum_fractions(s),
    decreases s.len(),
{
    let bps = TOTAL_BPS as int;
    if s.len() > 0 {
        let d = s.drop_last();
        let f = s.last().fraction;
        lemma_tranche_sum_scaled(purchased, d);
        lemma_tranche_of_nonneg(purchased, f);
        lemma_mul_nonnegative(purchased, f as int);
        lemma_fundamental_div_mod(purchased * f, bps);
        lemma_mod_bound(purchased * f, bps);
        lemma_mul_is_distributive_add(purchased, sum_fractions(d), f as int);
    }
}

/// Splitting a purchase over a schedule whose fractions sum to at most one
/// whole allocation never vests more than the purchase itself.
pub proof fn lemma_tranche_sum_le_purchased(purchased: int, s: Seq<ReleaseSchedule>)
    requires
        purchased >= 0,
        sum_fractions(s) <= TOTAL_BPS,
    ensures
        0 <= tranche_sum(purchased, s) <= purchased,
{
    let bps = TOTAL_BPS as int;
    lemma_tranche_sum_scaled(purchased, s);
    crate::state::lemma_sum_fractions_nonneg(s);
    lemma_mul_inequality(sum_fractions(s), bps, purchased);
    lemma_mul_is_commutative(purchased, sum_fractions(s));
    lemma_mul_is_commutative(purchased, bps);
}

/// No single tranche exceeds the vested total of its schedule.
pub proof fn lemma_tranche_le_sum(purchased: int, s: Seq<ReleaseSchedule>, i: int)
    requires
        purchased >= 0,
        0 <= i < s.len(),
    ensures
        tranche_of(purchased, s[i].fraction) <= tranche_sum(purchased, s),
    decreases s.len(),
{
    lemma_tranche_sum_scaled(purchased, s.drop_last());
    if i < s.len() - 1 {
        lemma_tranche_le_sum(purchased, s.drop_last(), i);
        lemma_tranche_of_nonneg(purchased, s.last().fraction);
    }
}

/// The number of tokens a payment purchases: the payment scaled by the
/// sale's price, rounded down. Fails when the result does not fit the token
/// amount width.
pub fn compute_purchase_amount(payment_amount: u64, price_numerator: u64, price_denominator: u64)
    -> (r: Result<u64, SaleError>)
    requires
        price_denominator > 0,
    ensures
        ({
            let p = payment_amount * price_numerator / (price_denominator as int);
            match r {
                Ok(v) => v == p && p <= u64::MAX,
                Err(e) => e == SaleError::CalculationOverflow && p > u64::MAX,
            }
        }),
{
    proof {
        lemma_mul_upper_bound(
            payment_amount as int, u64::MAX as int, price_numerator as int, u64::MAX as int);
    }
    let wide: u128 = (payment_amount as u128) * (price_numerator as u128);
    let quotient: u128 = wide / (price_denominator as u128);
    if quotient > u64::MAX as u128 {
        Err(SaleError::CalculationOverflow)
    } else {
        Ok(quotient as u64)
    }
}

/// The per-line vested amounts of a purchase, positionally aligned with the
/// schedule, together with their sum: each line gets its fraction of the
/// purchase rounded down, and the sum never exceeds the purchase.
pub fn split_purchase(purchased: u64, schedule: &Vec<ReleaseSchedule>)
    -> (r: (Vec<u64>, u64))
    requires
        sum_fractions(schedule@) <= TOTAL_BPS,
    ensures
        r.0@.len() == schedule@.len(),
        forall|i: int|
            0 <= i < schedule@.len() ==> r.0@[i]
                == tranche_of(purchased as int, #[trigger] schedule@[i].fraction),
        r.1 == tranche_sum(purchased as int, schedule@),
        r.1 <= purchased,
{
    let ghost s = schedule@;
    let mut amounts: Vec<u64> = Vec::new();
    let mut total: u64 = 0;
    let mut i: usize = 0;
    while i < schedule.len()
        invariant
            i <= schedule.len(),
            s == schedule@,
            sum_fractions(s) <= TOTAL_BPS,
            amounts@.len() == i,
            forall|j: int|
                0 <= j < i ==> amounts@[j] == tranche_of(purchased as int, #[trigger] s[j].fraction),
            total == tranche_sum(purchased as int, s.take(i as int)),
            total <= purchased,
        decreases schedule.len() - i,
    {
        let line = schedule[i];
        proof {
            crate::state::lemma_fraction_le_sum(s, i as int);
            lemma_tranche_of_le(purchased as int, line.fraction);
            lemma_mul_upper_bound(purchased as int, u64::MAX as int, line.fraction as int, 65535);
            assert(s.take(i + 1).drop_last() =~= s.take(i as int));
            assert(s.take(i + 1).last() == s[i as int]);
            lemma_sum_fractions_prefix(s, i + 1);
            lemma_tranche_sum_le_purchased(purchased as int, s.take(i + 1));
        }
        let wide: u128 = (purchased as u128) * (line.fraction as u128);
        let amount: u64 = (wide / (TOTAL_BPS as u128)) as u64;
        amounts.push(amount);
        total = total + amount;
        i = i + 1;
    }
    proof {
        assert(s.take(schedule@.len() as int) =~= s);
    }
    (amounts, total)
}

/// Fractions of a prefix of a schedule sum to no more than the whole
/// schedule's.
pub proof fn lemma_sum_fractions_prefix(s: Seq<ReleaseSchedule>, i: int)
    requires
        0 <= i <= s.len(),
    ensures
        sum_fractions(s.take(i)) <= sum_fractions(s),
    decreases s.len(),
{
    if i == s.len() {
        assert(s.take(i) =~= s);
    } else {
        assert(s.take(i) =~= s.drop_last().take(i));
        lemma_sum_fractions_prefix(s.drop_last(), i);
    }
}

} // verus!
